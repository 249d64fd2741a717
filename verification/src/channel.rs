//! The closed enumeration of release channels and its string encoding.

use vstd::prelude::*;
use vstd::string::StringExecFns;

verus! {

/// A release track under which an application may be independently
/// published. The order Stable, Beta, Alpha is the fixed fallback
/// priority: a fallback query tries the requested channel first and the
/// remaining channels in this order.
#[derive(Clone, Copy, PartialEq, Eq, Structural, Debug)]
pub enum Channel {
    Stable,
    Beta,
    Alpha,
}

/// Error for a channel string that names no channel; carries the
/// offending string for error reporting.
#[derive(Clone, Debug)]
pub struct InvalidChannel(pub String);

/// What `Channel::parse` recognises: exactly the three canonical
/// lowercase names.
pub open spec fn spec_parse_channel(s: Seq<char>) -> Option<Channel> {
    if s == "stable"@ {
        Some(Channel::Stable)
    } else if s == "beta"@ {
        Some(Channel::Beta)
    } else if s == "alpha"@ {
        Some(Channel::Alpha)
    } else {
        None
    }
}

impl Channel {
    /// Canonical lowercase name of the channel.
    pub open spec fn spec_name(self) -> Seq<char> {
        match self {
            Channel::Stable => "stable"@,
            Channel::Beta => "beta"@,
            Channel::Alpha => "alpha"@,
        }
    }

    /// Parses the canonical lowercase name of a channel; any other string
    /// is rejected with `InvalidChannel` carrying the original string.
    pub fn parse(s: &str) -> (r: Result<Channel, InvalidChannel>)
        ensures
            match r {
                Ok(c) => spec_parse_channel(s@) == Some(c),
                Err(e) => spec_parse_channel(s@) is None && e.0@ == s@,
            },
    {
        let owned = s.to_owned();
        if owned == String::from_str("stable") {
            Ok(Channel::Stable)
        } else if owned == String::from_str("beta") {
            Ok(Channel::Beta)
        } else if owned == String::from_str("alpha") {
            Ok(Channel::Alpha)
        } else {
            Err(InvalidChannel(owned))
        }
    }

    /// Capitalized display name of the channel, used in suggested
    /// filenames.
    pub open spec fn spec_display_name(self) -> Seq<char> {
        match self {
            Channel::Stable => "Stable"@,
            Channel::Beta => "Beta"@,
            Channel::Alpha => "Alpha"@,
        }
    }

    /// The capitalized display name of the channel.
    pub fn display_name(self) -> (r: String)
        ensures
            r@ == self.spec_display_name(),
    {
        match self {
            Channel::Stable => String::from_str("Stable"),
            Channel::Beta => String::from_str("Beta"),
            Channel::Alpha => String::from_str("Alpha"),
        }
    }

    /// Serializes the channel back to its canonical lowercase name.
    pub fn name(self) -> (r: String)
        ensures
            r@ == self.spec_name(),
    {
        match self {
            Channel::Stable => String::from_str("stable"),
            Channel::Beta => String::from_str("beta"),
            Channel::Alpha => String::from_str("alpha"),
        }
    }
}

/// All channels, in fixed priority order.
pub open spec fn spec_all_channels() -> Seq<Channel> {
    seq![Channel::Stable, Channel::Beta, Channel::Alpha]
}

/// All channels, in fixed priority order Stable, Beta, Alpha.
pub fn all_channels() -> (r: Vec<Channel>)
    ensures
        r@ == spec_all_channels(),
{
    let r = vec![Channel::Stable, Channel::Beta, Channel::Alpha];
    proof {
        assert(r@ =~= spec_all_channels());
    }
    r
}

/// The order in which a fallback query tries the channels: the requested
/// channel first, then the remaining channels in priority order.
pub open spec fn spec_fallback_order(requested: Channel) -> Seq<Channel> {
    match requested {
        Channel::Stable => seq![Channel::Stable, Channel::Beta, Channel::Alpha],
        Channel::Beta => seq![Channel::Beta, Channel::Stable, Channel::Alpha],
        Channel::Alpha => seq![Channel::Alpha, Channel::Stable, Channel::Beta],
    }
}

/// The channels a fallback query tries, in order: the requested channel,
/// then the remaining ones in priority order Stable, Beta, Alpha.
pub fn fallback_order(requested: Channel) -> (r: Vec<Channel>)
    ensures
        r@ == spec_fallback_order(requested),
{
    let r = match requested {
        Channel::Stable => vec![Channel::Stable, Channel::Beta, Channel::Alpha],
        Channel::Beta => vec![Channel::Beta, Channel::Stable, Channel::Alpha],
        Channel::Alpha => vec![Channel::Alpha, Channel::Stable, Channel::Beta],
    };
    proof {
        assert(r@ =~= spec_fallback_order(requested));
    }
    r
}

/// Law: the string encoding round-trips. Parsing the canonical name of
/// any channel yields that channel back.
pub proof fn lemma_parse_name_round_trip(c: Channel)
    ensures
        spec_parse_channel(c.spec_name()) == Some(c),
{
    reveal_strlit("stable");
    reveal_strlit("beta");
    reveal_strlit("alpha");
    assert("stable"@.len() == 6);
    assert("beta"@.len() == 4);
    assert("alpha"@.len() == 5);
}

/// Law: the fallback order is a permutation of all channels that starts
/// with the requested channel.
pub proof fn lemma_fallback_order_shape(requested: Channel)
    ensures
        spec_fallback_order(requested).len() == 3,
        spec_fallback_order(requested)[0] == requested,
        spec_fallback_order(requested).to_set() == spec_all_channels().to_set(),
{
    assert(spec_fallback_order(requested).to_set() =~= spec_all_channels().to_set());
}

} // verus!
