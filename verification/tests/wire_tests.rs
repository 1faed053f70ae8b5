use peridot2::wire::{parse_signature, WlArgKind, WlArgSpec, WlArgValue, WlRequest};

fn arg(kind: WlArgKind) -> WlArgSpec {
    WlArgSpec { kind, nullable: false }
}

fn opt(kind: WlArgKind) -> WlArgSpec {
    WlArgSpec { kind, nullable: true }
}

#[test]
fn empty_signature_has_no_args() {
    assert_eq!(parse_signature(""), vec![]);
}

#[test]
fn plain_letters_parse_in_order() {
    assert_eq!(
        parse_signature("ouii"),
        vec![
            arg(WlArgKind::Object),
            arg(WlArgKind::Uint),
            arg(WlArgKind::Int),
            arg(WlArgKind::Int),
        ]
    );
}

#[test]
fn question_mark_makes_next_arg_nullable() {
    assert_eq!(parse_signature("?o"), vec![opt(WlArgKind::Object)]);
    assert_eq!(
        parse_signature("n?oo"),
        vec![arg(WlArgKind::NewId), opt(WlArgKind::Object), arg(WlArgKind::Object)]
    );
}

#[test]
fn version_digits_carry_no_argument() {
    assert_eq!(parse_signature("3"), vec![]);
    assert_eq!(parse_signature("4ii"), vec![arg(WlArgKind::Int), arg(WlArgKind::Int)]);
    assert_eq!(parse_signature("5a"), vec![arg(WlArgKind::Array)]);
}

#[test]
fn stray_characters_carry_no_argument() {
    assert_eq!(parse_signature("?"), vec![]);
    assert_eq!(parse_signature("2?u"), vec![opt(WlArgKind::Uint)]);
    assert_eq!(parse_signature("x"), vec![]);
}

#[test]
fn every_letter_maps_to_its_kind() {
    assert_eq!(
        parse_signature("iufsonah"),
        vec![
            arg(WlArgKind::Int),
            arg(WlArgKind::Uint),
            arg(WlArgKind::Fixed),
            arg(WlArgKind::Str),
            arg(WlArgKind::Object),
            arg(WlArgKind::NewId),
            arg(WlArgKind::Array),
            arg(WlArgKind::Fd),
        ]
    );
}

#[test]
fn requests_compare_by_value() {
    let a = WlRequest { opcode: 2, args: vec![WlArgValue::Str(String::from("hi"))], destroys: false };
    let b = WlRequest { opcode: 2, args: vec![WlArgValue::Str(String::from("hi"))], destroys: false };
    assert_eq!(a, b);
    let c = WlRequest { opcode: 2, args: vec![WlArgValue::Str(String::from("ho"))], destroys: false };
    assert_ne!(a, c);
}
