use extendr_api::rtype::{rtype_to_sxp, sxp_to_rtype, Rtype, INTSXP, NILSXP, RAWSXP, S4SXP, VECSXP};

#[test]
fn type_codes() {
    assert_eq!(rtype_to_sxp(Rtype::Null), NILSXP as i32);
    assert_eq!(rtype_to_sxp(Rtype::Integers), 13);
    assert_eq!(rtype_to_sxp(Rtype::List), VECSXP as i32);
    assert_eq!(rtype_to_sxp(Rtype::S4), 25);
    assert_eq!(sxp_to_rtype(INTSXP as i32), Rtype::Integers);
    assert_eq!(sxp_to_rtype(RAWSXP as i32), Rtype::Raw);
    assert_eq!(sxp_to_rtype(S4SXP as i32), Rtype::S4);
    assert_eq!(sxp_to_rtype(11), Rtype::Unknown);
    assert_eq!(sxp_to_rtype(-1), Rtype::Unknown);
    assert_eq!(sxp_to_rtype(99), Rtype::Unknown);
}

#[test]
fn type_code_roundtrip() {
    for code in 0..30 {
        let t = sxp_to_rtype(code);
        if t != Rtype::Unknown {
            assert_eq!(rtype_to_sxp(t), code);
        }
    }
    assert_eq!(sxp_to_rtype(rtype_to_sxp(Rtype::Doubles)), Rtype::Doubles);
}

#[test]
fn type_names() {
    assert_eq!(Rtype::Doubles.name(), "Doubles");
    assert_eq!(Rtype::ExternalPtr.name(), "ExternalPtr");
    assert_eq!(Rtype::Unknown.name(), "Unknown");
}

