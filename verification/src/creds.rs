//! Credential lists: whitespace tokenization and the working set.
//!
//! A credential line holds a username and a password separated by
//! whitespace.  Lines that do not split into exactly two tokens are dropped
//! when the working set is built.

use vstd::prelude::*;

verus! {

/// The characters with the Unicode `White_Space` property, the separators
/// that `char::is_whitespace` recognizes.
pub open spec fn is_space_char(c: char) -> bool {
    ||| c == ' '
    ||| c == '\t'
    ||| c == '\n'
    ||| c == '\u{b}'
    ||| c == '\u{c}'
    ||| c == '\r'
    ||| c == '\u{85}'
    ||| c == '\u{a0}'
    ||| c == '\u{1680}'
    ||| ('\u{2000}' <= c && c <= '\u{200a}')
    ||| c == '\u{2028}'
    ||| c == '\u{2029}'
    ||| c == '\u{202f}'
    ||| c == '\u{205f}'
    ||| c == '\u{3000}'
}

/// Whether `c` separates tokens of a credential line.
pub fn is_space(c: char) -> (r: bool)
    ensures
        r == is_space_char(c),
{
    match c {
        ' ' | '\t' | '\n' | '\u{b}' | '\u{c}' | '\r' | '\u{85}' | '\u{a0}' | '\u{1680}'
        | '\u{2028}' | '\u{2029}' | '\u{202f}' | '\u{205f}' | '\u{3000}' => true,
        _ => '\u{2000}' <= c && c <= '\u{200a}',
    }
}

/// Length of the maximal non-whitespace prefix of `s`.
pub open spec fn token_len(s: Seq<char>) -> nat
    decreases s.len(),
{
    if s.len() == 0 || is_space_char(s[0]) {
        0
    } else {
        1 + token_len(s.skip(1))
    }
}

/// The first token never runs past the end of the line.
pub proof fn lemma_token_len_le(s: Seq<char>)
    ensures
        token_len(s) <= s.len(),
    decreases s.len(),
{
    if s.len() != 0 && !is_space_char(s[0]) {
        lemma_token_len_le(s.skip(1));
    }
}

/// The whitespace-separated tokens of `s`, in order.
pub open spec fn tokens(s: Seq<char>) -> Seq<Seq<char>>
    decreases s.len(),
{
    if s.len() == 0 {
        Seq::empty()
    } else if is_space_char(s[0]) {
        tokens(s.skip(1))
    } else {
        let k = token_len(s) as int;
        // The guard always holds here (`lemma_token_len_le`, and one unfold
        // of `token_len`); it is written out so the recursion visibly stops.
        if 1 <= k <= s.len() {
            seq![s.take(k)] + tokens(s.skip(k))
        } else {
            Seq::empty()
        }
    }
}

/// `token_len` is the unique split point: `k` characters of token, then a
/// separator or the end of the line.
proof fn lemma_token_len_is(s: Seq<char>, k: int)
    requires
        0 <= k <= s.len(),
        forall|m: int| 0 <= m < k ==> !is_space_char(s[m]),
        k == s.len() || is_space_char(s[k]),
    ensures
        token_len(s) == k,
    decreases k,
{
    if k == 0 {
    } else {
        lemma_token_len_is(s.skip(1), k - 1);
    }
}

/// Split `s` into its whitespace-separated tokens, in order.
pub fn tokenize(s: &str) -> (r: Vec<String>)
    ensures
        r@.map_values(|t: String| t@) == tokens(s@),
{
    let n = s.unicode_len();
    let mut out: Vec<String> = Vec::new();
    let mut i: usize = 0;
    proof {
        assert(s@.skip(0) =~= s@);
        assert(out@.map_values(|t: String| t@) + tokens(s@) =~= tokens(s@));
    }
    while i < n
        invariant
            i <= n,
            n == s@.len(),
            out@.map_values(|t: String| t@) + tokens(s@.skip(i as int)) == tokens(s@),
        decreases n - i,
    {
        let c = s.get_char(i);
        if is_space(c) {
            proof {
                assert(s@.skip(i as int).skip(1) =~= s@.skip(i + 1));
            }
            i = i + 1;
        } else {
            let mut j = i;
            while j < n && !is_space(s.get_char(j))
                invariant
                    i <= j <= n,
                    n == s@.len(),
                    forall|m: int| i <= m < j ==> !is_space_char(s@[m]),
                decreases n - j,
            {
                j = j + 1;
            }
            proof {
                assert(j == n || is_space_char(s@[j as int]));
                assert(i < j);
            }
            let tok = s.substring_char(i, j).to_owned();
            proof {
                let u = s@.skip(i as int);
                assert(forall|m: int| 0 <= m < j - i ==> u[m] == s@[m + i]);
                lemma_token_len_is(u, j - i);
                lemma_token_len_le(u);
                assert(u.take(j - i) =~= s@.subrange(i as int, j as int));
                assert(u.skip(j - i) =~= s@.skip(j as int));
                assert((out@.push(tok)).map_values(|t: String| t@) =~= out@.map_values(
                    |t: String| t@,
                ).push(tok@));
                assert(seq![u.take(j - i)] + tokens(u.skip(j - i)) =~= seq![tok@] + tokens(
                    s@.skip(j as int),
                ));
            }
            out.push(tok);
            i = j;
        }
    }
    proof {
        assert(s@.skip(n as int) =~= Seq::<char>::empty());
        assert(out@.map_values(|t: String| t@) + tokens(s@.skip(n as int)) =~= out@.map_values(
            |t: String| t@,
        ));
    }
    out
}

/// One username/password pair of the working set.
#[derive(Clone, Debug)]
pub struct Credential {
    pub user: String,
    pub pass: String,
}

impl Credential {
    /// The pair as plain character sequences.
    pub open spec fn view(self) -> (Seq<char>, Seq<char>) {
        (self.user@, self.pass@)
    }

    /// A field-for-field copy of the pair.
    pub fn duplicate(&self) -> (c: Credential)
        ensures
            c == *self,
    {
        Credential { user: self.user.clone(), pass: self.pass.clone() }
    }
}

/// The credential pairs of the lines that split into exactly two tokens,
/// in input order; all other lines are dropped.
pub open spec fn working_set(lines: Seq<Seq<char>>) -> Seq<(Seq<char>, Seq<char>)>
    decreases lines.len(),
{
    if lines.len() == 0 {
        Seq::empty()
    } else {
        let rest = working_set(lines.drop_last());
        let t = tokens(lines.last());
        if t.len() == 2 {
            rest.push((t[0], t[1]))
        } else {
            rest
        }
    }
}

/// Parse one credential line: `Some` exactly when the line splits into two
/// whitespace-separated tokens, the username then the password.
pub fn parse_credential_line(line: &str) -> (r: Option<Credential>)
    ensures
        r is Some <==> tokens(line@).len() == 2,
        r matches Some(c) ==> c.view() == (tokens(line@)[0], tokens(line@)[1]),
{
    let mut toks = tokenize(line);
    if toks.len() == 2 {
        let pass = toks.pop().unwrap();
        let user = toks.pop().unwrap();
        Some(Credential { user, pass })
    } else {
        None
    }
}

/// Build the working set from raw credential lines: malformed lines (not
/// exactly two tokens) are silently dropped, the rest keep their order.
pub fn load_credentials(lines: &Vec<String>) -> (r: Vec<Credential>)
    ensures
        r@.map_values(|c: Credential| c.view()) == working_set(lines.deep_view()),
{
    let mut out: Vec<Credential> = Vec::new();
    let mut i: usize = 0;
    while i < lines.len()
        invariant
            i <= lines.len(),
            out@.map_values(|c: Credential| c.view()) == working_set(
                lines.deep_view().take(i as int),
            ),
        decreases lines.len() - i,
    {
        let parsed = parse_credential_line(lines[i].as_str());
        proof {
            let lv = lines.deep_view();
            assert(lv.take(i + 1).drop_last() =~= lv.take(i as int));
            assert(lv.take(i + 1).last() == lines[i as int]@);
        }
        match parsed {
            Some(c) => {
                proof {
                    assert((out@.push(c)).map_values(|c: Credential| c.view()) =~= out@.map_values(
                        |c: Credential| c.view(),
                    ).push(c.view()));
                }
                out.push(c);
            },
            None => {},
        }
        i = i + 1;
    }
    proof {
        assert(lines.deep_view().take(lines@.len() as int) =~= lines.deep_view());
    }
    out
}

} // verus!
