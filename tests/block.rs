use audio_visualizer::block::prepare_block;

#[test]
fn short_input_is_zero_padded() {
    let data = [1.0f32, 2.0, 3.0];
    assert_eq!(prepare_block(&data, 6, 0.0), vec![1.0, 2.0, 3.0, 0.0, 0.0, 0.0]);
}

#[test]
fn long_input_is_cut() {
    let data = [1u32, 2, 3, 4, 5];
    assert_eq!(prepare_block(&data, 3, 0), vec![1, 2, 3]);
}

#[test]
fn empty_input_gives_all_zeros() {
    let data: [i16; 0] = [];
    assert_eq!(prepare_block(&data, 4, 0), vec![0, 0, 0, 0]);
}

#[test]
fn explicit_padding_gives_same_block() {
    let short = [1.0f32; 4];
    let mut padded = vec![1.0f32; 4];
    padded.extend(vec![0.0f32; 4]);
    assert_eq!(prepare_block(&short, 8, 0.0), prepare_block(&padded, 8, 0.0));
}
