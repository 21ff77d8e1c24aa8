use eip1962::{
    bare_gas_outcome, description_buffer, engine_selector, gas_outcome, output_buffer,
    output_outcome, read_description, take_filled, CallError, OperationType,
    ERROR_DESCRIPTION_LEN, MAX_OUTPUT_LEN,
};

#[test]
fn buffers_are_zeroed_and_sized() {
    let out = output_buffer();
    assert_eq!(out.len(), MAX_OUTPUT_LEN);
    assert_eq!(out.len(), 1536);
    assert!(out.iter().all(|b| *b == 0));
    let desc = description_buffer();
    assert_eq!(desc.len(), ERROR_DESCRIPTION_LEN);
    assert_eq!(desc.len(), 256);
    assert!(desc.iter().all(|b| *b == 0));
}

#[test]
fn selector_keeps_the_code() {
    assert_eq!(engine_selector(OperationType::G1ADD), 1i8);
    assert_eq!(engine_selector(OperationType::BNPAIR), 8i8);
    assert_eq!(engine_selector(OperationType::MNT6PAIR), 10i8);
}

#[test]
fn take_filled_keeps_written_prefix() {
    assert_eq!(take_filled(vec![1, 2, 3, 4], 2), vec![1, 2]);
    assert_eq!(take_filled(vec![1, 2, 3, 4], 0), Vec::<u8>::new());
    assert_eq!(take_filled(vec![1, 2, 3, 4], 4), vec![1, 2, 3, 4]);
    assert_eq!(take_filled(vec![1, 2, 3, 4], 9), vec![1, 2, 3, 4]);
}

#[test]
fn success_returns_written_output() {
    let mut out = output_buffer();
    out[0] = 7;
    out[1] = 8;
    out[2] = 9;
    let r = output_outcome(true, out, 3, description_buffer(), 0);
    assert_eq!(r.unwrap(), vec![7, 8, 9]);
}

#[test]
fn success_with_nothing_written_is_empty() {
    let r = output_outcome(true, output_buffer(), 0, description_buffer(), 0);
    assert!(r.unwrap().is_empty());
}

#[test]
fn failure_without_description() {
    let r = output_outcome(false, output_buffer(), 0, description_buffer(), 0);
    assert!(matches!(r, Err(CallError::EmptyDescription)));
}

#[test]
fn failure_with_text_description() {
    let mut desc = description_buffer();
    let text = b"point is not on curve";
    desc[..text.len()].copy_from_slice(text);
    let r = output_outcome(false, output_buffer(), 5, desc, text.len() as u32);
    match r {
        Err(CallError::Engine(s)) => assert_eq!(s, "point is not on curve"),
        _ => panic!("expected the engine's description"),
    }
}

#[test]
fn description_is_cut_at_reported_length() {
    let mut desc = description_buffer();
    let text = b"invalid modulus";
    desc[..text.len()].copy_from_slice(text);
    match read_description(desc, 7) {
        CallError::Engine(s) => assert_eq!(s, "invalid"),
        _ => panic!("expected the engine's description"),
    }
}

#[test]
fn description_with_multibyte_text() {
    match read_description(vec![0xc3, 0xa9, b'x'], 3) {
        CallError::Engine(s) => {
            assert_eq!(s, "\u{e9}x");
            assert_eq!(s.chars().count(), 2);
        }
        _ => panic!("expected the engine's description"),
    }
}

#[test]
fn description_with_nul_reports_first_position() {
    assert!(matches!(
        read_description(vec![b'a', 0, b'b', 0], 4),
        CallError::DescriptionHasNul(1)
    ));
    // The zero bytes past the reported length are not part of the description.
    let mut desc = description_buffer();
    desc[0] = b'o';
    desc[1] = b'k';
    assert!(matches!(read_description(desc.clone(), 2), CallError::Engine(_)));
    assert!(matches!(read_description(desc, 3), CallError::DescriptionHasNul(2)));
}

#[test]
fn description_not_utf8() {
    assert!(matches!(
        read_description(vec![0xff, 0xfe, b'a'], 3),
        CallError::DescriptionNotUtf8
    ));
    assert!(matches!(read_description(vec![0xc3], 1), CallError::DescriptionNotUtf8));
}

#[test]
fn gas_on_success_and_failure() {
    assert!(matches!(gas_outcome(true, 42, description_buffer(), 0), Ok(42)));
    assert!(matches!(
        gas_outcome(false, 42, description_buffer(), 0),
        Err(CallError::EmptyDescription)
    ));
    match gas_outcome(false, 0, b"unsupported curve".to_vec(), 17) {
        Err(CallError::Engine(s)) => assert_eq!(s, "unsupported curve"),
        _ => panic!("expected the engine's description"),
    }
    assert!(matches!(bare_gas_outcome(true, u64::MAX), Ok(u64::MAX)));
    assert!(matches!(bare_gas_outcome(false, 3), Err(CallError::GasMeteringFailed)));
}

#[test]
fn error_descriptions() {
    assert_eq!(
        CallError::EmptyDescription.description(),
        "native engine returned an empty error description"
    );
    assert_eq!(CallError::GasMeteringFailed.description(), "failed to meter gas");
    assert_eq!(
        CallError::DescriptionHasNul(3).description(),
        "error description contains a nul byte"
    );
    assert_eq!(
        CallError::DescriptionNotUtf8.description(),
        "error description is not valid UTF-8"
    );
    assert_eq!(CallError::Engine("bad input".to_string()).description(), "bad input");
}
