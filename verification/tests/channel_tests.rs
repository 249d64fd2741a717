use sniff::channel::Channel;

#[test]
fn parse_round_trips_stable() {
    assert!(matches!(Channel::parse("stable"), Ok(Channel::Stable)));
    assert_eq!(Channel::parse(&Channel::Stable.name()).unwrap(), Channel::Stable);
}

#[test]
fn parse_round_trips_beta() {
    assert!(matches!(Channel::parse("beta"), Ok(Channel::Beta)));
    assert_eq!(Channel::parse(&Channel::Beta.name()).unwrap(), Channel::Beta);
}

#[test]
fn parse_round_trips_alpha() {
    assert!(matches!(Channel::parse("alpha"), Ok(Channel::Alpha)));
    assert_eq!(Channel::parse(&Channel::Alpha.name()).unwrap(), Channel::Alpha);
}

#[test]
fn parse_rejects_unknown_string_and_carries_it() {
    let e = Channel::parse("nightly").unwrap_err();
    assert_eq!(e.0, "nightly");
    let e = Channel::parse("").unwrap_err();
    assert_eq!(e.0, "");
    // the documented case policy is lowercase-only
    let e = Channel::parse("Stable").unwrap_err();
    assert_eq!(e.0, "Stable");
}

#[test]
fn names_are_canonical_lowercase() {
    assert_eq!(Channel::Stable.name(), "stable");
    assert_eq!(Channel::Beta.name(), "beta");
    assert_eq!(Channel::Alpha.name(), "alpha");
    assert_eq!(Channel::Stable.display_name(), "Stable");
    assert_eq!(Channel::Beta.display_name(), "Beta");
    assert_eq!(Channel::Alpha.display_name(), "Alpha");
}

#[test]
fn fallback_order_puts_requested_first() {
    assert_eq!(
        sniff::channel::fallback_order(Channel::Stable),
        vec![Channel::Stable, Channel::Beta, Channel::Alpha]
    );
    assert_eq!(
        sniff::channel::fallback_order(Channel::Beta),
        vec![Channel::Beta, Channel::Stable, Channel::Alpha]
    );
    assert_eq!(
        sniff::channel::fallback_order(Channel::Alpha),
        vec![Channel::Alpha, Channel::Stable, Channel::Beta]
    );
    assert_eq!(
        sniff::channel::all_channels(),
        vec![Channel::Stable, Channel::Beta, Channel::Alpha]
    );
}
