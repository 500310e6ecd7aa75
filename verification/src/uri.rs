//! URI parser: splits a raw `ush://<name>?<payload>` string into the
//! application name and the encoded payload. Exactly one `?` separator is
//! required, and trailing `/` characters are stripped from both segments.

use vstd::prelude::*;

verus! {

/// Why parsing a raw URI failed.
#[derive(Debug, Clone, Copy, PartialEq, Eq)]
pub enum UriError {
    /// The input does not start with the `ush://` scheme prefix.
    MissingScheme,
    /// After the prefix the input does not hold exactly one `?` separator.
    BadSeparator,
}

/// The scheme prefix every raw URI must start with.
pub open spec fn scheme_prefix() -> Seq<char> {
    seq!['u', 's', 'h', ':', '/', '/']
}

/// Whether the raw URI starts with the scheme prefix.
pub open spec fn has_scheme(raw: Seq<char>) -> bool {
    raw.len() >= 6 && raw.subrange(0, 6) == scheme_prefix()
}

/// Whether position `i` holds the one and only `?` of the sequence.
pub open spec fn is_only_sep(rest: Seq<char>, i: int) -> bool {
    &&& 0 <= i < rest.len()
    &&& rest[i] == '?'
    &&& forall|j: int| 0 <= j < rest.len() && j != i ==> rest[j] != '?'
}

/// Whether the sequence holds exactly one `?`.
pub open spec fn exactly_one_sep(rest: Seq<char>) -> bool {
    exists|i: int| is_only_sep(rest, i)
}

/// The position of the one `?` of a sequence that has exactly one.
pub open spec fn sep_pos(rest: Seq<char>) -> int {
    choose|i: int| is_only_sep(rest, i)
}

/// The sequence with its trailing `/` characters removed.
pub open spec fn trim_trailing_slashes(s: Seq<char>) -> Seq<char>
    decreases s.len(),
{
    if s.len() > 0 && s.last() == '/' {
        trim_trailing_slashes(s.drop_last())
    } else {
        s
    }
}

/// The two segments of a well-formed raw URI.
pub ghost struct ParsedView {
    /// The application name, trailing slashes stripped.
    pub app_name: Seq<char>,
    /// The encoded payload, trailing slashes stripped.
    pub encoded_payload: Seq<char>,
}

/// What parsing a raw URI yields: the scheme prefix is stripped, the rest is
/// split at its one `?`, and both segments lose their trailing slashes.
pub open spec fn parse_spec(raw: Seq<char>) -> Result<ParsedView, UriError> {
    if !has_scheme(raw) {
        Err(UriError::MissingScheme)
    } else if !exactly_one_sep(raw.skip(6)) {
        Err(UriError::BadSeparator)
    } else {
        let q = 6 + sep_pos(raw.skip(6));
        Ok(ParsedView {
            app_name: trim_trailing_slashes(raw.subrange(6, q)),
            encoded_payload: trim_trailing_slashes(raw.subrange(q + 1, raw.len() as int)),
        })
    }
}

/// A raw URI split into its application name and its encoded payload.
#[derive(Debug, Clone, PartialEq, Eq)]
pub struct ParsedInvocation {
    /// The name the registry is searched for.
    pub app_name: String,
    /// The still-encoded argument payload.
    pub encoded_payload: String,
}

impl View for ParsedInvocation {
    type V = ParsedView;

    open spec fn view(&self) -> ParsedView {
        ParsedView { app_name: self.app_name@, encoded_payload: self.encoded_payload@ }
    }
}

/// A copy of the characters `from..to` of `s` with trailing slashes removed.
fn trimmed_segment(s: &str, from: usize, to: usize) -> (r: String)
    requires
        from <= to <= s@.len(),
    ensures
        r@ == trim_trailing_slashes(s@.subrange(from as int, to as int)),
{
    let mut end = to;
    while end > from && s.get_char(end - 1) == '/'
        invariant
            from <= end <= to <= s@.len(),
            trim_trailing_slashes(s@.subrange(from as int, to as int)) == trim_trailing_slashes(
                s@.subrange(from as int, end as int),
            ),
        decreases end,
    {
        proof {
            assert(s@.subrange(from as int, end as int).drop_last() =~= s@.subrange(
                from as int,
                end as int - 1,
            ));
        }
        end -= 1;
    }
    let seg = s.substring_char(from, end);
    proof {
        assert(trim_trailing_slashes(s@.subrange(from as int, end as int)) == s@.subrange(
            from as int,
            end as int,
        ));
    }
    seg.to_owned()
}

/// Parses a raw URI into its application name and its encoded payload.
pub fn parse_uri(raw: &str) -> (r: Result<ParsedInvocation, UriError>)
    ensures
        r matches Ok(p) ==> parse_spec(raw@) matches Ok(v) && p@ == v,
        r matches Err(e) ==> parse_spec(raw@) == Err::<ParsedView, UriError>(e),
{
    let n = raw.unicode_len();
    if n < 6 || raw.get_char(0) != 'u' || raw.get_char(1) != 's' || raw.get_char(2) != 'h'
        || raw.get_char(3) != ':' || raw.get_char(4) != '/' || raw.get_char(5) != '/' {
        proof {
            if raw@.len() >= 6 && raw@.subrange(0, 6) == scheme_prefix() {
                assert(raw@[0] == 'u' && raw@[1] == 's' && raw@[2] == 'h' && raw@[3] == ':'
                    && raw@[4] == '/' && raw@[5] == '/') by {
                    assert(forall|k: int|
                        0 <= k < 6 ==> raw@.subrange(0, 6)[k] == #[trigger] raw@[k]);
                }
            }
        }
        return Err(UriError::MissingScheme);
    }
    proof {
        assert(raw@.subrange(0, 6) =~= scheme_prefix());
    }
    let ghost rest = raw@.skip(6);
    let mut i: usize = 6;
    let mut qpos: usize = 0;
    let mut count: usize = 0;
    while i < n
        invariant
            6 <= i <= n,
            n == raw@.len(),
            count <= i,
            count == 0 ==> forall|j: int| 6 <= j < i ==> raw@[j] != '?',
            count == 1 ==> 6 <= qpos < i && raw@[qpos as int] == '?' && forall|j: int|
                6 <= j < i && j != qpos ==> raw@[j] != '?',
            count >= 2 ==> exists|j1: int, j2: int|
                6 <= j1 < j2 < i && raw@[j1] == '?' && raw@[j2] == '?',
        decreases n - i,
    {
        if raw.get_char(i) == '?' {
            if count == 0 {
                qpos = i;
            }
            if count < 2 {
                count += 1;
            }
        }
        i += 1;
    }
    proof {
        assert(forall|j: int| 0 <= j < rest.len() ==> rest[j] == #[trigger] raw@[j + 6]);
    }
    if count != 1 {
        proof {
            if exactly_one_sep(rest) {
                let w = choose|k: int| is_only_sep(rest, k);
                assert(raw@[w + 6] == '?');
                if count == 0 {
                    assert(false);
                } else {
                    let (j1, j2) = choose|j1: int, j2: int|
                        6 <= j1 < j2 < n && raw@[j1] == '?' && raw@[j2] == '?';
                    assert(rest[j1 - 6] == '?' && rest[j2 - 6] == '?');
                    assert(false);
                }
            }
        }
        return Err(UriError::BadSeparator);
    }
    proof {
        assert(is_only_sep(rest, qpos - 6));
        let w = sep_pos(rest);
        assert(is_only_sep(rest, w));
        if w != qpos - 6 {
            assert(rest[qpos - 6] != '?');
            assert(false);
        }
    }
    let app_name = trimmed_segment(raw, 6, qpos);
    let encoded_payload = trimmed_segment(raw, qpos + 1, n);
    proof {
        assert(raw@.subrange(6, qpos as int) =~= rest.subrange(0, qpos - 6));
        assert(raw@.subrange(6, 6 + sep_pos(rest)) == raw@.subrange(6, qpos as int));
    }
    Ok(ParsedInvocation { app_name, encoded_payload })
}

} // verus!
