use audio_stego::wav::frames_for_file_size;

#[test]
fn frames_follow_the_header() {
    assert_eq!(frames_for_file_size(0), 0);
    assert_eq!(frames_for_file_size(44), 0);
    assert_eq!(frames_for_file_size(47), 0);
    assert_eq!(frames_for_file_size(48), 1);
    assert_eq!(frames_for_file_size(150000), 37489);
}
