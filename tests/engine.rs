use kata_bridge::engine::{parse_choice, EngineVariant};

#[test]
fn one_picks_gpu() {
    assert_eq!(parse_choice("1\n"), Some(EngineVariant::Gpu));
    assert_eq!(parse_choice("  1 \r\n"), Some(EngineVariant::Gpu));
    assert_eq!(parse_choice("+1"), Some(EngineVariant::Gpu));
    assert_eq!(parse_choice("001"), Some(EngineVariant::Gpu));
}

#[test]
fn two_picks_cpu() {
    assert_eq!(parse_choice("2\n"), Some(EngineVariant::Cpu));
    assert_eq!(parse_choice("\t2"), Some(EngineVariant::Cpu));
}

#[test]
fn anything_else_is_no_choice() {
    assert_eq!(parse_choice(""), None);
    assert_eq!(parse_choice("\n"), None);
    assert_eq!(parse_choice("3\n"), None);
    assert_eq!(parse_choice("0"), None);
    assert_eq!(parse_choice("-1"), None);
    assert_eq!(parse_choice("gpu"), None);
    assert_eq!(parse_choice("1 2"), None);
    assert_eq!(parse_choice("+"), None);
    assert_eq!(parse_choice("99999999999"), None);
}
