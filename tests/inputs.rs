use atari2600::inputs::console_inputs;

#[test]
fn console_inputs_pull_bits_low() {
    let (a, b, i) = console_inputs(false, false, false, false, false, false, false);
    assert_eq!((a, b, i.input4, i.input5), (0xFF, 0x0B, 0x80, 0x80));
    let (a, b, i) = console_inputs(true, false, false, true, true, false, true);
    assert_eq!((a, b, i.input4), (0x6F, 0x0A, 0x00));
    let (a, b, _) = console_inputs(false, true, true, false, false, true, false);
    assert_eq!((a, b), (0x9F, 0x09));
}
