use midi_sequencer::scale::Scale;

const DIMINISHED: [u8; 8] = [2, 1, 2, 1, 2, 1, 2, 1];

#[test]
fn degree_zero_is_base_note() {
    let scale = Scale::new(&DIMINISHED);
    assert_eq!(scale.note_from_scale(0, 48), 48);
    assert_eq!(scale.note_from_scale(0, 0), 0);
    assert_eq!(scale.note_from_scale(0, 255), 255);
}

#[test]
fn degree_count_is_one_octave_up() {
    let scale = Scale::new(&DIMINISHED);
    assert_eq!(scale.degree_count(), 8);
    assert_eq!(scale.note_from_scale(8, 48), 60);
    let hirajoshi = Scale::new(&[2, 1, 4, 1, 4]);
    assert_eq!(hirajoshi.degree_count(), 5);
    assert_eq!(hirajoshi.note_from_scale(5, 36), 48);
}

#[test]
fn degrees_follow_accumulated_intervals() {
    let scale = Scale::new(&DIMINISHED);
    let expected = [48u8, 50, 51, 53, 54, 56, 57, 59, 60, 62];
    for (degree, pitch) in expected.iter().enumerate() {
        assert_eq!(scale.note_from_scale(degree as u8, 48), *pitch);
    }
    let persian = Scale::new(&[1, 3, 1, 1, 2, 3, 1]);
    assert_eq!(persian.note_from_scale(3, 60), 65);
    assert_eq!(persian.note_from_scale(16, 60), 60 + 24 + 4);
}

#[test]
fn pitch_wraps_past_a_byte() {
    let scale = Scale::new(&DIMINISHED);
    // 250 + 12 * 1 + 2 = 264, which wraps to 8
    assert_eq!(scale.note_from_scale(9, 250), 8);
}

#[test]
fn intervals_off_the_octave_are_refused() {
    assert!(Scale::try_new(&[2, 2, 2]).is_none());
    assert!(Scale::try_new(&[]).is_none());
    assert!(Scale::try_new(&[12, 1]).is_none());
    assert!(Scale::try_new(&[200, 200]).is_none());
    assert!(Scale::try_new(&[2, 1, 2, 1, 2, 1, 2, 2]).is_none());
    assert!(Scale::try_new(&[2, 1, 2, 1, 2, 1, 2, 1]).is_some());
    assert!(Scale::try_new(&[12]).is_some());
}

#[test]
fn too_many_degrees_are_refused() {
    let mut steps = vec![0u8; 300];
    steps[0] = 12;
    assert!(Scale::try_new(&steps).is_none());
    let mut steps = vec![0u8; 255];
    steps[0] = 12;
    let scale = Scale::try_new(&steps).unwrap();
    assert_eq!(scale.degree_count(), 255);
    assert_eq!(scale.note_from_scale(1, 10), 22);
}
