//! Filename suggestion and naming metadata.
//!
//! Builds the suggested download filename
//! `{brand}_{appname}_{channel}_{version}.apk` out of the details
//! document: every fragment is sanitized (non-filename characters become
//! underscores, doubled underscores collapse, edges are trimmed), titles
//! and version strings lose their ` - ` subtitle and surrounding
//! whitespace.

use vstd::prelude::*;
use vstd::string::StrSliceExecFns;

verus! {

/// Names the Unicode alphanumeric property of a character; the result
/// depends on the character alone.
pub uninterp spec fn is_alphanumeric_char(c: char) -> bool;

/// Relies on char::is_alphanumeric: whether the character is a Unicode
/// letter or number.
#[verifier::external_body]
fn char_is_alphanumeric(c: char) -> (r: bool)
    ensures
        r == is_alphanumeric_char(c),
{
    c.is_alphanumeric()
}

/// Names the Unicode whitespace property of a character; the result
/// depends on the character alone.
pub uninterp spec fn is_whitespace_char(c: char) -> bool;

/// Relies on char::is_whitespace: whether the character is Unicode
/// whitespace.
#[verifier::external_body]
fn char_is_whitespace(c: char) -> (r: bool)
    ensures
        r == is_whitespace_char(c),
{
    c.is_whitespace()
}

/// Relies on String::push: appends one character at the end.
#[verifier::external_body]
fn string_push(s: &mut String, c: char)
    ensures
        final(s)@ == old(s)@.push(c),
{
    s.push(c)
}

/// The characters a filename fragment keeps as they are; everything else
/// becomes an underscore.
pub open spec fn keeps_char(c: char) -> bool {
    is_alphanumeric_char(c) || c == '.' || c == '-'
}

/// Every kept character stays, every other becomes an underscore.
pub open spec fn mask_chars(s: Seq<char>) -> Seq<char> {
    s.map_values(|c: char| if keeps_char(c) { c } else { '_' })
}

/// Each non-overlapping doubled underscore collapses into one, left to
/// right.
pub open spec fn collapse_underscores(s: Seq<char>) -> Seq<char>
    decreases s.len(),
{
    if s.len() == 0 {
        Seq::empty()
    } else if s.len() >= 2 && s[0] == '_' && s[1] == '_' {
        seq!['_'] + collapse_underscores(s.skip(2))
    } else {
        seq![s[0]] + collapse_underscores(s.skip(1))
    }
}

/// The sequence without its leading underscores.
pub open spec fn drop_leading_underscores(s: Seq<char>) -> Seq<char>
    decreases s.len(),
{
    if s.len() > 0 && s[0] == '_' {
        drop_leading_underscores(s.drop_first())
    } else {
        s
    }
}

/// The sequence without its trailing underscores.
pub open spec fn drop_trailing_underscores(s: Seq<char>) -> Seq<char>
    decreases s.len(),
{
    if s.len() > 0 && s[s.len() - 1] == '_' {
        drop_trailing_underscores(s.drop_last())
    } else {
        s
    }
}

/// What sanitizing a filename fragment yields: mask, collapse doubled
/// underscores, trim underscores off both edges.
pub open spec fn spec_sanitize(s: Seq<char>) -> Seq<char> {
    drop_trailing_underscores(drop_leading_underscores(collapse_underscores(mask_chars(s))))
}

/// Sanitizes one filename fragment: keeps Unicode alphanumerics, dots
/// and dashes, turns every other character into an underscore, collapses
/// doubled underscores and trims underscores off both edges.
pub fn sanitize(s: &str) -> (r: String)
    ensures
        r@ == spec_sanitize(s@),
{
    let n = s.unicode_len();
    // mask
    let mut masked: Vec<char> = Vec::new();
    let mut i: usize = 0;
    while i < n
        invariant
            n == s@.len(),
            i <= n,
            masked@ == mask_chars(s@.take(i as int)),
        decreases n - i,
    {
        let c = s.get_char(i);
        let kept = if char_is_alphanumeric(c) || c == '.' || c == '-' {
            c
        } else {
            '_'
        };
        masked.push(kept);
        proof {
            assert(mask_chars(s@.take(i + 1 as int)) =~= mask_chars(s@.take(i as int)).push(
                if keeps_char(s@[i as int]) {
                    s@[i as int]
                } else {
                    '_'
                },
            ));
        }
        i = i + 1;
    }
    proof {
        assert(s@.take(n as int) =~= s@);
    }
    // collapse doubled underscores
    let m = masked.len();
    let mut collapsed: Vec<char> = Vec::new();
    let mut j: usize = 0;
    proof {
        assert(masked@.skip(0) =~= masked@);
        assert(Seq::<char>::empty() + collapse_underscores(masked@) =~= collapse_underscores(
            masked@,
        ));
    }
    while j < m
        invariant
            m == masked@.len(),
            j <= m,
            collapsed@ + collapse_underscores(masked@.skip(j as int)) == collapse_underscores(
                masked@,
            ),
        decreases m - j,
    {
        let ghost pre = collapsed@;
        let ghost rest = masked@.skip(j as int);
        if masked[j] == '_' && j + 1 < m && masked[j + 1] == '_' {
            collapsed.push('_');
            proof {
                assert(rest[0] == '_' && rest[1] == '_');
                assert(rest.skip(2) =~= masked@.skip(j + 2 as int));
                assert(collapse_underscores(rest) == seq!['_'] + collapse_underscores(
                    masked@.skip(j + 2 as int),
                ));
                assert(pre.push('_') + collapse_underscores(masked@.skip(j + 2 as int)) =~= pre + (
                seq!['_'] + collapse_underscores(masked@.skip(j + 2 as int))));
            }
            j = j + 2;
        } else {
            collapsed.push(masked[j]);
            proof {
                assert(rest[0] == masked@[j as int]);
                assert(!(rest.len() >= 2 && rest[0] == '_' && rest[1] == '_'));
                assert(rest.skip(1) =~= masked@.skip(j + 1 as int));
                assert(collapse_underscores(rest) == seq![rest[0]] + collapse_underscores(
                    masked@.skip(j + 1 as int),
                ));
                assert(pre.push(rest[0]) + collapse_underscores(masked@.skip(j + 1 as int)) =~= pre
                    + (seq![rest[0]] + collapse_underscores(masked@.skip(j + 1 as int))));
            }
            j = j + 1;
        }
    }
    proof {
        assert(masked@.skip(m as int) =~= Seq::<char>::empty());
        assert(collapsed@ + Seq::<char>::empty() =~= collapsed@);
    }
    // trim underscores off both edges
    let k = collapsed.len();
    let mut a: usize = 0;
    proof {
        assert(collapsed@.skip(0) =~= collapsed@);
    }
    while a < k && collapsed[a] == '_'
        invariant
            k == collapsed@.len(),
            a <= k,
            drop_leading_underscores(collapsed@.skip(a as int)) == drop_leading_underscores(
                collapsed@,
            ),
        decreases k - a,
    {
        proof {
            assert(collapsed@.skip(a as int).drop_first() =~= collapsed@.skip(a + 1 as int));
        }
        a = a + 1;
    }
    proof {
        if a < k {
            assert(collapsed@.skip(a as int)[0] == collapsed@[a as int]);
        } else {
            assert(collapsed@.skip(a as int) =~= Seq::<char>::empty());
        }
        assert(drop_leading_underscores(collapsed@) == collapsed@.skip(a as int));
    }
    let mut b: usize = k;
    while b > a && collapsed[b - 1] == '_'
        invariant
            k == collapsed@.len(),
            a <= b <= k,
            drop_trailing_underscores(collapsed@.subrange(a as int, b as int))
                == drop_trailing_underscores(collapsed@.skip(a as int)),
        decreases b,
    {
        proof {
            let cur = collapsed@.subrange(a as int, b as int);
            assert(cur[cur.len() - 1] == collapsed@[b - 1 as int]);
            assert(cur.drop_last() =~= collapsed@.subrange(a as int, b - 1 as int));
        }
        b = b - 1;
    }
    proof {
        let cur = collapsed@.subrange(a as int, b as int);
        if b > a {
            assert(cur[cur.len() - 1] == collapsed@[b - 1 as int]);
        }
        assert(drop_trailing_underscores(collapsed@.skip(a as int)) == cur);
    }
    // build the result
    let mut out = String::new();
    let mut p: usize = a;
    while p < b
        invariant
            k == collapsed@.len(),
            a <= p <= b <= k,
            out@ == collapsed@.subrange(a as int, p as int),
        decreases b - p,
    {
        string_push(&mut out, collapsed[p]);
        proof {
            assert(collapsed@.subrange(a as int, p + 1 as int) =~= collapsed@.subrange(
                a as int,
                p as int,
            ).push(collapsed@[p as int]));
        }
        p = p + 1;
    }
    proof {
        assert(collapsed@.take(k as int) =~= collapsed@);
    }
    out
}

/// Whether the subtitle separator `" - "` stands at position `j`.
pub open spec fn sep_at(s: Seq<char>, j: int) -> bool {
    &&& 0 <= j
    &&& j + 3 <= s.len()
    &&& s[j] == ' '
    &&& s[j + 1] == '-'
    &&& s[j + 2] == ' '
}

/// The prefix before the first `" - "` subtitle separator; the whole
/// sequence when none occurs.
pub open spec fn spec_split_prefix(s: Seq<char>) -> Seq<char>
    decreases s.len(),
{
    if sep_at(s, 0) {
        Seq::empty()
    } else if s.len() == 0 {
        s
    } else {
        seq![s[0]] + spec_split_prefix(s.drop_first())
    }
}

/// With the first separator at `k`, the prefix is the first `k`
/// characters.
proof fn lemma_split_prefix_at(s: Seq<char>, k: int)
    requires
        sep_at(s, k),
        forall|j: int| 0 <= j < k ==> !sep_at(s, j),
    ensures
        spec_split_prefix(s) == s.take(k),
    decreases k,
{
    if k == 0 {
        assert(spec_split_prefix(s) =~= s.take(0));
    } else {
        assert(!sep_at(s, 0));
        let rest = s.drop_first();
        assert(sep_at(rest, k - 1));
        assert forall|j: int| 0 <= j < k - 1 implies !sep_at(rest, j) by {
            assert(!sep_at(s, j + 1));
        }
        lemma_split_prefix_at(rest, k - 1);
        assert(seq![s[0]] + rest.take(k - 1) =~= s.take(k));
    }
}

/// With no separator anywhere, the prefix is the whole sequence.
proof fn lemma_split_prefix_none(s: Seq<char>)
    requires
        forall|j: int| !sep_at(s, j),
    ensures
        spec_split_prefix(s) == s,
    decreases s.len(),
{
    if s.len() == 0 {
    } else {
        assert(!sep_at(s, 0));
        let rest = s.drop_first();
        assert forall|j: int| !sep_at(rest, j) by {
            if 0 <= j && j + 3 <= rest.len() {
                assert(!sep_at(s, j + 1));
            }
        }
        lemma_split_prefix_none(rest);
        assert(seq![s[0]] + rest =~= s);
    }
}

/// The sequence without its leading whitespace.
pub open spec fn drop_leading_ws(s: Seq<char>) -> Seq<char>
    decreases s.len(),
{
    if s.len() > 0 && is_whitespace_char(s[0]) {
        drop_leading_ws(s.drop_first())
    } else {
        s
    }
}

/// The sequence without its trailing whitespace.
pub open spec fn drop_trailing_ws(s: Seq<char>) -> Seq<char>
    decreases s.len(),
{
    if s.len() > 0 && is_whitespace_char(s[s.len() - 1]) {
        drop_trailing_ws(s.drop_last())
    } else {
        s
    }
}

/// What cleaning a naming fragment yields: the part before any `" - "`
/// subtitle, without surrounding whitespace.
pub open spec fn spec_clean_fragment(s: Seq<char>) -> Seq<char> {
    drop_trailing_ws(drop_leading_ws(spec_split_prefix(s)))
}

/// Cleans a naming fragment (a title or a version string): keeps the
/// part before a `" - "` subtitle, if any, and trims whitespace off both
/// edges.
pub fn clean_fragment(s: &str) -> (r: String)
    ensures
        r@ == spec_clean_fragment(s@),
{
    let n = s.unicode_len();
    // find the first " - " separator
    let mut i: usize = 0;
    let mut found = false;
    while i < n && n - i >= 3 && !found
        invariant
            n == s@.len(),
            i <= n,
            found ==> sep_at(s@, i as int),
            forall|j: int| 0 <= j < i ==> !sep_at(s@, j),
        decreases n - i, (if found { 0int } else { 1int }),
    {
        if s.get_char(i) == ' ' && s.get_char(i + 1) == '-' && s.get_char(i + 2) == ' ' {
            found = true;
        } else {
            i = i + 1;
        }
    }
    let cut = if found {
        i
    } else {
        n
    };
    let ghost prefix = s@.take(cut as int);
    proof {
        if found {
            lemma_split_prefix_at(s@, cut as int);
        } else {
            assert forall|j: int| !sep_at(s@, j) by {
                if 0 <= j && j + 3 <= s@.len() {
                    assert(!sep_at(s@, j));
                }
            }
            lemma_split_prefix_none(s@);
            assert(s@.take(n as int) =~= s@);
        }
        assert(spec_split_prefix(s@) == prefix);
    }
    // trim whitespace off both edges of the prefix
    let mut a: usize = 0;
    proof {
        assert(prefix.skip(0) =~= prefix);
    }
    while a < cut && char_is_whitespace(s.get_char(a))
        invariant
            n == s@.len(),
            cut <= n,
            prefix == s@.take(cut as int),
            a <= cut,
            drop_leading_ws(prefix.skip(a as int)) == drop_leading_ws(prefix),
        decreases cut - a,
    {
        proof {
            assert(prefix.skip(a as int)[0] == prefix[a as int]);
            assert(prefix.skip(a as int).drop_first() =~= prefix.skip(a + 1 as int));
        }
        a = a + 1;
    }
    proof {
        if a < cut {
            assert(prefix.skip(a as int)[0] == prefix[a as int]);
        } else {
            assert(prefix.skip(a as int) =~= Seq::<char>::empty());
        }
        assert(drop_leading_ws(prefix) == prefix.skip(a as int));
    }
    let mut b: usize = cut;
    while b > a && char_is_whitespace(s.get_char(b - 1))
        invariant
            n == s@.len(),
            cut <= n,
            prefix == s@.take(cut as int),
            a <= b <= cut,
            drop_trailing_ws(prefix.subrange(a as int, b as int)) == drop_trailing_ws(
                prefix.skip(a as int),
            ),
        decreases b,
    {
        proof {
            let cur = prefix.subrange(a as int, b as int);
            assert(cur[cur.len() - 1] == prefix[b - 1 as int]);
            assert(cur.drop_last() =~= prefix.subrange(a as int, b - 1 as int));
        }
        b = b - 1;
    }
    proof {
        let cur = prefix.subrange(a as int, b as int);
        if b > a {
            assert(cur[cur.len() - 1] == prefix[b - 1 as int]);
        }
        assert(drop_trailing_ws(prefix.skip(a as int)) == cur);
    }
    // build the result
    let mut out = String::new();
    let mut p: usize = a;
    while p < b
        invariant
            n == s@.len(),
            cut <= n,
            prefix == s@.take(cut as int),
            a <= p <= b <= cut,
            out@ == prefix.subrange(a as int, p as int),
        decreases b - p,
    {
        string_push(&mut out, s.get_char(p));
        proof {
            assert(prefix.subrange(a as int, p + 1 as int) =~= prefix.subrange(
                a as int,
                p as int,
            ).push(prefix[p as int]));
        }
        p = p + 1;
    }
    out
}

/// The view of an optional borrowed string.
pub open spec fn opt_str_view(o: Option<&str>) -> Option<Seq<char>> {
    match o {
        Some(s) => Some(s@),
        None => None,
    }
}

/// The view of an optional owned string.
pub open spec fn opt_string_view(o: Option<String>) -> Option<Seq<char>> {
    match o {
        Some(s) => Some(s@),
        None => None,
    }
}

/// The suggested filename `{brand}_{appname}_{channel}_{version}.apk`:
/// every part sanitized, a missing app name replaced by `App`, the
/// version cleaned of its subtitle first, and the version part dropped
/// entirely when none is known.
pub open spec fn spec_suggested_filename(
    brand: Seq<char>,
    app_name: Option<Seq<char>>,
    channel: Seq<char>,
    version: Option<Seq<char>>,
) -> Seq<char> {
    let brand_part = spec_sanitize(brand);
    let app_part = match app_name {
        Some(a) => spec_sanitize(a),
        None => "App"@,
    };
    let channel_part = spec_sanitize(channel);
    match version {
        Some(v) => brand_part + "_"@ + app_part + "_"@ + channel_part + "_"@ + spec_sanitize(
            spec_clean_fragment(v),
        ) + ".apk"@,
        None => brand_part + "_"@ + app_part + "_"@ + channel_part + ".apk"@,
    }
}

/// Builds the suggested filename for a download:
/// `{brand}_{appname}_{channel}_{version}.apk`.
pub fn build_suggested_filename(
    brand: &str,
    app_name: Option<&str>,
    channel: &str,
    version: Option<&str>,
) -> (r: String)
    ensures
        r@ == spec_suggested_filename(brand@, opt_str_view(app_name), channel@, opt_str_view(
            version,
        )),
{
    let mut out = sanitize(brand);
    out.append("_");
    match app_name {
        Some(a) => {
            let part = sanitize(a);
            out.append(part.as_str());
        },
        None => {
            out.append("App");
        },
    }
    out.append("_");
    let channel_part = sanitize(channel);
    out.append(channel_part.as_str());
    match version {
        Some(v) => {
            out.append("_");
            let cleaned = clean_fragment(v);
            let part = sanitize(cleaned.as_str());
            out.append(part.as_str());
        },
        None => {},
    }
    out.append(".apk");
    out
}

/// The title nested in a document's item, if present.
pub open spec fn spec_title(doc: crate::model::DetailsDocument) -> Option<Seq<char>> {
    match doc.item {
        Some(item) => match item.title {
            Some(t) => Some(t@),
            None => None,
        },
        None => None,
    }
}

/// The version string nested in a document's app details, if present.
pub open spec fn spec_version_string(doc: crate::model::DetailsDocument) -> Option<Seq<char>> {
    match doc.item {
        Some(item) => match item.details {
            Some(d) => match d.app_details {
                Some(a) => match a.version_string {
                    Some(v) => Some(v@),
                    None => None,
                },
                None => None,
            },
            None => None,
        },
        None => None,
    }
}

/// The naming metadata a download result carries: the app name (the
/// document's title without its subtitle), the raw version string and
/// the version code.
pub struct NamingInfo {
    pub app_name: Option<String>,
    pub version_string: Option<String>,
    pub version_code: Option<i32>,
}

/// Reads the naming metadata out of a details document: the title,
/// cleaned of its ` - ` subtitle and surrounding whitespace, the raw
/// version string and the version code; each absent where the document
/// omits it.
pub fn extract_naming(doc: &crate::model::DetailsDocument) -> (r: NamingInfo)
    ensures
        match spec_title(*doc) {
            Some(t) => r.app_name matches Some(n) && n@ == spec_clean_fragment(t),
            None => r.app_name is None,
        },
        opt_string_view(r.version_string) == spec_version_string(*doc),
        r.version_code == doc.spec_version_code(),
{
    let app_name = match &doc.item {
        Some(item) => match &item.title {
            Some(t) => Some(clean_fragment(t.as_str())),
            None => None,
        },
        None => None,
    };
    let version_string = match &doc.item {
        Some(item) => match &item.details {
            Some(d) => match &d.app_details {
                Some(a) => match &a.version_string {
                    Some(v) => Some(v.clone()),
                    None => None,
                },
                None => None,
            },
            None => None,
        },
        None => None,
    };
    let version_code = doc.version_code();
    NamingInfo { app_name, version_string, version_code }
}

/// Assembles the download result handed to callers out of the naming
/// metadata, the channel actually served and the granted bundle: the
/// suggested filename is built from brand, cleaned app name, the
/// channel's display name and the version string; the bundle's URLs are
/// carried over in upstream order.
pub fn assemble_download_info(
    brand: &str,
    naming: NamingInfo,
    channel: crate::channel::Channel,
    bundle: crate::model::DownloadBundle,
) -> (r: crate::model::DownloadInfo)
    ensures
        r.suggested_filename matches Some(f) && f@ == spec_suggested_filename(
            brand@,
            opt_string_view(naming.app_name),
            channel.spec_display_name(),
            opt_string_view(naming.version_string),
        ),
        r.app_name == naming.app_name,
        r.version_string == naming.version_string,
        r.version_code == naming.version_code,
        r.channel matches Some(s) && s@ == channel.spec_name(),
        r.main_apk_url == bundle.main_apk_url,
        r.splits@.len() == bundle.splits@.len(),
        forall|i: int|
            0 <= i < bundle.splits@.len() ==> #[trigger] r.splits@[i] == (
            crate::model::SplitFile {
                name: Some(bundle.splits@[i].0),
                download_url: Some(bundle.splits@[i].1),
            }),
        r.additional_files@.len() == bundle.additional_files@.len(),
        forall|i: int|
            0 <= i < bundle.additional_files@.len() ==> #[trigger] r.additional_files@[i] == (
            crate::model::AdditionalFile {
                filename: Some(bundle.additional_files@[i].0),
                download_url: Some(bundle.additional_files@[i].1),
            }),
{
    let display = channel.display_name();
    let app_ref: Option<&str> = match &naming.app_name {
        Some(s) => Some(s.as_str()),
        None => None,
    };
    let version_ref: Option<&str> = match &naming.version_string {
        Some(s) => Some(s.as_str()),
        None => None,
    };
    let filename = build_suggested_filename(brand, app_ref, display.as_str(), version_ref);
    let crate::model::DownloadBundle { main_apk_url, splits, additional_files } = bundle;
    let ghost splits0 = splits@;
    let mut splits_rest = splits;
    let mut out_splits: Vec<crate::model::SplitFile> = Vec::new();
    proof {
        assert(splits_rest@ =~= splits0.skip(0));
    }
    while splits_rest.len() > 0
        invariant
            out_splits@.len() + splits_rest@.len() == splits0.len(),
            splits_rest@ == splits0.skip(out_splits@.len() as int),
            forall|i: int|
                0 <= i < out_splits@.len() ==> #[trigger] out_splits@[i] == (
                crate::model::SplitFile {
                    name: Some(splits0[i].0),
                    download_url: Some(splits0[i].1),
                }),
        decreases splits_rest@.len(),
    {
        let ghost done = out_splits@.len() as int;
        let (name, url) = splits_rest.remove(0);
        proof {
            assert(splits0.skip(done)[0] == splits0[done]);
            assert(splits0.skip(done).drop_first() =~= splits0.skip(done + 1));
        }
        out_splits.push(crate::model::SplitFile { name: Some(name), download_url: Some(url) });
    }
    let ghost adds0 = additional_files@;
    let mut adds_rest = additional_files;
    let mut out_adds: Vec<crate::model::AdditionalFile> = Vec::new();
    proof {
        assert(adds_rest@ =~= adds0.skip(0));
    }
    while adds_rest.len() > 0
        invariant
            out_adds@.len() + adds_rest@.len() == adds0.len(),
            adds_rest@ == adds0.skip(out_adds@.len() as int),
            forall|i: int|
                0 <= i < out_adds@.len() ==> #[trigger] out_adds@[i] == (
                crate::model::AdditionalFile {
                    filename: Some(adds0[i].0),
                    download_url: Some(adds0[i].1),
                }),
        decreases adds_rest@.len(),
    {
        let ghost done = out_adds@.len() as int;
        let (name, url) = adds_rest.remove(0);
        proof {
            assert(adds0.skip(done)[0] == adds0[done]);
            assert(adds0.skip(done).drop_first() =~= adds0.skip(done + 1));
        }
        out_adds.push(
            crate::model::AdditionalFile { filename: Some(name), download_url: Some(url) },
        );
    }
    crate::model::DownloadInfo {
        suggested_filename: Some(filename),
        app_name: naming.app_name,
        version_string: naming.version_string,
        version_code: naming.version_code,
        channel: Some(channel.name()),
        main_apk_url,
        splits: out_splits,
        additional_files: out_adds,
    }
}

} // verus!
