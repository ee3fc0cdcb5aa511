use vorbis_dec::frame::interleave_channels;

#[test]
fn interleave_two_channels() {
    let chans: Vec<Vec<i16>> = vec![vec![1, 2, 3], vec![4, 5, 6]];
    let out = interleave_channels(&chans, 3);
    assert_eq!(out, vec![1, 4, 2, 5, 3, 6]);
}

#[test]
fn interleave_single_channel() {
    let chans: Vec<Vec<i16>> = vec![vec![7, 8]];
    let out = interleave_channels(&chans, 2);
    assert_eq!(out, vec![7, 8]);
}

#[test]
fn interleave_pads_with_zeros() {
    let chans: Vec<Vec<i16>> = vec![vec![1], vec![2]];
    let out = interleave_channels(&chans, 3);
    assert_eq!(out, vec![1, 2, 0, 0, 0, 0]);
}

#[test]
fn interleave_empty_channels() {
    let chans: Vec<Vec<i16>> = vec![vec![], vec![]];
    let out = interleave_channels(&chans, 2);
    assert_eq!(out, vec![0, 0, 0, 0]);
}
