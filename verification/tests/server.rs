use corgi::server::wire_line;

#[test]
fn word_lines_end_in_space_and_newline() {
    assert_eq!(wire_line("corgi"), "corgi \n");
    assert_eq!(wire_line(""), " \n");
}
