use bela::board::{pin_from_code, pin_to_code};
use bela::BelaHw;

#[test]
fn board_codes_match_the_native_layer() {
    let boards = [
        (BelaHw::NoHw, bela_sys::BelaHw_NoHw),
        (BelaHw::Bela, bela_sys::BelaHw_Bela),
        (BelaHw::BelaMini, bela_sys::BelaHw_BelaMini),
        (BelaHw::Salt, bela_sys::BelaHw_Salt),
        (BelaHw::CtagFace, bela_sys::BelaHw_CtagFace),
        (BelaHw::CtagBeast, bela_sys::BelaHw_CtagBeast),
        (BelaHw::CtagFaceBela, bela_sys::BelaHw_CtagFaceBela),
        (BelaHw::CtagBeastBela, bela_sys::BelaHw_CtagBeastBela),
    ];
    for (hw, code) in boards {
        assert_eq!(hw.to_i32(), code);
        assert_eq!(BelaHw::from_i32(code), Some(hw));
    }
}

#[test]
fn unknown_board_code_is_none() {
    assert_eq!(BelaHw::from_i32(2), None);
    assert_eq!(BelaHw::from_i32(-2), None);
    assert_eq!(BelaHw::from_i32(99), None);
}

#[test]
fn pin_codes() {
    assert_eq!(pin_from_code(0), Some(0));
    assert_eq!(pin_from_code(127), Some(127));
    assert_eq!(pin_from_code(128), None);
    assert_eq!(pin_from_code(-1), None);
    assert_eq!(pin_to_code(Some(12)), 12);
    assert_eq!(pin_to_code(Some(-3)), -1);
    assert_eq!(pin_to_code(None), -1);
}
