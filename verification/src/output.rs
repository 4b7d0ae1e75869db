//! Output naming and the records that the tool prints.

use vstd::prelude::*;
use crate::error::{GenaiError, spec_exit_code, spec_suggestion};
use crate::models::ModelInfo;
use crate::providers::MediaOutput;
use crate::text::{
    ascii_alnum, ascii_lower, decimal, decimal_string, is_ascii_alnum, pad_right, pad_to, push_char,
    to_ascii_lower,
};

verus! {

/// How results are printed.
#[derive(PartialEq, Eq, Structural, Clone, Copy, Debug)]
pub enum Format {
    /// Structured JSON on standard output.
    Json,
    /// Human-readable lines on a terminal.
    Tty,
}

impl Format {
    /// JSON when it is asked for or when standard output is not a terminal;
    /// terminal output otherwise.
    pub fn detect(json_flag: bool, stdout_is_terminal: bool) -> (f: Format)
        ensures
            f == (if json_flag || !stdout_is_terminal {
                Format::Json
            } else {
                Format::Tty
            }),
    {
        if json_flag || !stdout_is_terminal {
            Format::Json
        } else {
            Format::Tty
        }
    }
}

/// A lower-case ASCII letter or digit.
pub open spec fn is_slug_alnum(c: char) -> bool {
    ('a' <= c && c <= 'z') || ('0' <= c && c <= '9')
}

/// The characters read so far, with ASCII letters and digits kept in lower
/// case and each run of other characters replaced by a single dash; no dash
/// is written before the first letter or digit.
pub open spec fn collapse(s: Seq<char>) -> Seq<char>
    decreases s.len(),
{
    if s.len() == 0 {
        Seq::empty()
    } else {
        let p = collapse(s.drop_last());
        let c = s.last();
        if is_ascii_alnum(c) {
            p.push(ascii_lower(c))
        } else if p.len() == 0 || p.last() == '-' {
            p
        } else {
            p.push('-')
        }
    }
}

/// `s` without its trailing dashes.
pub open spec fn trim_dashes(s: Seq<char>) -> Seq<char>
    decreases s.len(),
{
    if s.len() > 0 && s.last() == '-' {
        trim_dashes(s.drop_last())
    } else {
        s
    }
}

/// The file-name stem made of a prompt: its first 40 characters collapsed,
/// without trailing dashes; `output` if nothing is left.
pub open spec fn spec_slugify(prompt: Seq<char>) -> Seq<char> {
    let head = if prompt.len() > 40 {
        prompt.take(40)
    } else {
        prompt
    };
    let t = trim_dashes(collapse(head));
    if t.len() == 0 {
        "output"@
    } else {
        t
    }
}

/// Characters from `[a-z0-9-]`, no dash first and no two dashes in a row.
pub open spec fn well_dashed(s: Seq<char>) -> bool {
    &&& forall|i: int| 0 <= i < s.len() ==> is_slug_alnum(#[trigger] s[i]) || s[i] == '-'
    &&& s.len() > 0 ==> s[0] != '-'
    &&& forall|i: int| 0 <= i < s.len() - 1 ==> !(#[trigger] s[i] == '-' && s[i + 1] == '-')
}

/// A slug: 1 to 40 characters from `[a-z0-9-]`, neither starting nor ending
/// with a dash, with no two dashes in a row.
pub open spec fn is_slug(s: Seq<char>) -> bool {
    &&& 0 < s.len() <= 40
    &&& well_dashed(s)
    &&& s.last() != '-'
}

proof fn lemma_collapse_step(s: Seq<char>, i: int)
    requires
        0 <= i < s.len(),
    ensures
        collapse(s.take(i + 1)) == ({
            let p = collapse(s.take(i));
            let c = s[i];
            if is_ascii_alnum(c) {
                p.push(ascii_lower(c))
            } else if p.len() == 0 || p.last() == '-' {
                p
            } else {
                p.push('-')
            }
        }),
{
    assert(s.take(i + 1).drop_last() =~= s.take(i));
}

proof fn lemma_collapse_len(s: Seq<char>)
    ensures
        collapse(s).len() <= s.len(),
    decreases s.len(),
{
    if s.len() > 0 {
        lemma_collapse_len(s.drop_last());
    }
}

proof fn lemma_ascii_lower_alnum(c: char)
    requires
        is_ascii_alnum(c),
    ensures
        is_slug_alnum(ascii_lower(c)),
{
}

proof fn lemma_collapse_well_dashed(s: Seq<char>)
    ensures
        well_dashed(collapse(s)),
    decreases s.len(),
{
    if s.len() > 0 {
        lemma_collapse_well_dashed(s.drop_last());
        let p = collapse(s.drop_last());
        let c = s.last();
        if is_ascii_alnum(c) {
            lemma_ascii_lower_alnum(c);
            let q = p.push(ascii_lower(c));
            assert forall|i: int| 0 <= i < q.len() - 1 implies !(#[trigger] q[i] == '-' && q[i
                + 1] == '-') by {
                if i < p.len() - 1 {
                    assert(q[i] == p[i] && q[i + 1] == p[i + 1]);
                }
            }
        } else if !(p.len() == 0 || p.last() == '-') {
            let q = p.push('-');
            assert forall|i: int| 0 <= i < q.len() - 1 implies !(#[trigger] q[i] == '-' && q[i
                + 1] == '-') by {
                if i < p.len() - 1 {
                    assert(q[i] == p[i] && q[i + 1] == p[i + 1]);
                }
            }
        }
    }
}

proof fn lemma_well_dashed_take(s: Seq<char>, k: int)
    requires
        well_dashed(s),
        0 <= k <= s.len(),
    ensures
        well_dashed(s.take(k)),
{
    let t = s.take(k);
    assert forall|i: int| 0 <= i < t.len() - 1 implies !(#[trigger] t[i] == '-' && t[i + 1]
        == '-') by {
        assert(t[i] == s[i] && t[i + 1] == s[i + 1]);
    }
}

proof fn lemma_trim_dashes(s: Seq<char>)
    ensures
        trim_dashes(s).len() <= s.len(),
        trim_dashes(s) == s.take(trim_dashes(s).len() as int),
        trim_dashes(s).len() > 0 ==> trim_dashes(s).last() != '-',
    decreases s.len(),
{
    if s.len() > 0 && s.last() == '-' {
        lemma_trim_dashes(s.drop_last());
        assert(s.drop_last().take(trim_dashes(s).len() as int) =~= s.take(
            trim_dashes(s).len() as int,
        ));
    } else {
        assert(s.take(s.len() as int) =~= s);
    }
}

/// A well-dashed sequence collapses to itself.
proof fn lemma_collapse_well_dashed_fixed(s: Seq<char>)
    requires
        well_dashed(s),
    ensures
        collapse(s) == s,
    decreases s.len(),
{
    if s.len() > 0 {
        let d = s.drop_last();
        lemma_well_dashed_take(s, s.len() - 1);
        assert(s.take(s.len() - 1) =~= d);
        lemma_collapse_well_dashed_fixed(d);
        let c = s.last();
        if c == '-' {
            assert(s.len() >= 2);
            assert(!(s[s.len() - 2] == '-' && s[s.len() - 1] == '-'));
        }
        assert(collapse(s) =~= s);
    }
}

/// Every slug is a well-formed slug: 1 to 40 characters from `[a-z0-9-]`,
/// no dash at either end, no two dashes in a row.
pub proof fn lemma_slugify_shape(prompt: Seq<char>)
    ensures
        is_slug(spec_slugify(prompt)),
{
    reveal_strlit("output");
    let head = if prompt.len() > 40 {
        prompt.take(40)
    } else {
        prompt
    };
    let c = collapse(head);
    lemma_collapse_well_dashed(head);
    lemma_collapse_len(head);
    lemma_trim_dashes(c);
    let t = trim_dashes(c);
    lemma_well_dashed_take(c, t.len() as int);
    if t.len() == 0 {
        let o = "output"@;
        assert(o.len() == 6);
        assert(well_dashed(o));
    }
}

/// Making a slug of a slug gives it back unchanged, so slugs are stable.
pub proof fn lemma_slugify_idempotent(prompt: Seq<char>)
    ensures
        spec_slugify(spec_slugify(prompt)) == spec_slugify(prompt),
{
    let s = spec_slugify(prompt);
    lemma_slugify_shape(prompt);
    lemma_slug_fixed(s);
}

/// A slug is its own slug.
pub proof fn lemma_slug_fixed(s: Seq<char>)
    requires
        is_slug(s),
    ensures
        spec_slugify(s) == s,
{
    lemma_collapse_well_dashed_fixed(s);
    lemma_trim_dashes(s);
}

proof fn lemma_filter_push(s: Seq<char>, p: spec_fn(char) -> bool, c: char)
    ensures
        s.push(c).filter(p) == (if p(c) {
            s.filter(p).push(c)
        } else {
            s.filter(p)
        }),
{
    reveal(Seq::filter);
    assert(s.push(c).drop_last() =~= s);
}

proof fn lemma_collapse_keeps(s: Seq<char>)
    ensures
        collapse(s).filter(|c: char| c != '-') == s.filter(
            |c: char| ('a' <= c && c <= 'z') || ('A' <= c && c <= 'Z') || ('0' <= c && c <= '9'),
        ).map_values(
            |c: char|
                if 'A' <= c && c <= 'Z' {
                    ((c as u32) + 32) as char
                } else {
                    c
                },
        ),
    decreases s.len(),
{
    let nd = |c: char| c != '-';
    let pk = |c: char| ('a' <= c && c <= 'z') || ('A' <= c && c <= 'Z') || ('0' <= c && c <= '9');
    let pl = |c: char|
        if 'A' <= c && c <= 'Z' {
            ((c as u32) + 32) as char
        } else {
            c
        };
    if s.len() == 0 {
        reveal(Seq::filter);
        assert(collapse(s).filter(nd) =~= Seq::<char>::empty());
        assert(s.filter(pk).map_values(pl) =~= Seq::<char>::empty());
    } else {
        let d = s.drop_last();
        let c = s.last();
        lemma_collapse_keeps(d);
        assert(d.push(c) =~= s);
        lemma_filter_push(d, pk, c);
        let p = collapse(d);
        assert(is_ascii_alnum(c) == pk(c));
        if is_ascii_alnum(c) {
            assert(ascii_lower(c) == pl(c));
            lemma_filter_push(p, nd, ascii_lower(c));
            assert(d.filter(pk).push(c).map_values(pl) =~= d.filter(pk).map_values(pl).push(pl(c)));
        } else if !(p.len() == 0 || p.last() == '-') {
            lemma_filter_push(p, nd, '-');
        }
    }
}

proof fn lemma_trim_keeps(s: Seq<char>)
    ensures
        trim_dashes(s).filter(|c: char| c != '-') == s.filter(|c: char| c != '-'),
    decreases s.len(),
{
    if s.len() > 0 && s.last() == '-' {
        lemma_trim_keeps(s.drop_last());
        assert(s.drop_last().push('-') =~= s);
        lemma_filter_push(s.drop_last(), |c: char| c != '-', '-');
    }
}

proof fn lemma_non_dash_found(s: Seq<char>, i: int)
    requires
        0 <= i < s.len(),
        s[i] != '-',
    ensures
        s.filter(|c: char| c != '-').len() > 0,
    decreases s.len(),
{
    let d = s.drop_last();
    assert(d.push(s.last()) =~= s);
    lemma_filter_push(d, |c: char| c != '-', s.last());
    if i < s.len() - 1 {
        assert(d[i] == s[i]);
        lemma_non_dash_found(d, i);
    }
}

/// The slug keeps every ASCII letter and digit of the prompt's first 40
/// characters, upper case lowered, in order, and nothing else but dashes;
/// a prompt whose first 40 characters hold none gets `output`.
pub proof fn lemma_slug_keeps_letters_and_digits(prompt: Seq<char>)
    ensures
        ({
            let head = if prompt.len() > 40 {
                prompt.take(40)
            } else {
                prompt
            };
            let kept = head.filter(
                |c: char| ('a' <= c && c <= 'z') || ('A' <= c && c <= 'Z') || ('0' <= c && c <= '9'),
            ).map_values(
                |c: char|
                    if 'A' <= c && c <= 'Z' {
                        ((c as u32) + 32) as char
                    } else {
                        c
                    },
            );
            &&& kept.len() > 0 ==> spec_slugify(prompt).filter(|c: char| c != '-') == kept
            &&& kept.len() == 0 ==> spec_slugify(prompt) == "output"@
        }),
{
    let head = if prompt.len() > 40 {
        prompt.take(40)
    } else {
        prompt
    };
    let c = collapse(head);
    lemma_collapse_keeps(head);
    lemma_trim_keeps(c);
    lemma_collapse_well_dashed(head);
    let t = trim_dashes(c);
    if c.len() > 0 {
        lemma_non_dash_found(c, 0);
    }
    if t.len() == 0 {
        reveal(Seq::filter);
        assert(t.filter(|c: char| c != '-') =~= Seq::<char>::empty());
    }
}

/// The file-name stem for a prompt: its first 40 characters, ASCII letters
/// and digits lower-cased, each run of other characters turned into one
/// dash, no dash at either end; `output` when those characters hold no
/// letter or digit.
pub fn slugify(prompt: &str) -> (slug: String)
    ensures
        slug@ == spec_slugify(prompt@),
{
    let n = prompt.unicode_len();
    let limit: usize = if n > 40 {
        40
    } else {
        n
    };
    let ghost head = if prompt@.len() > 40 {
        prompt@.take(40)
    } else {
        prompt@
    };
    assert(head =~= prompt@.take(limit as int));
    let mut chars: Vec<char> = Vec::new();
    let mut last_was_dash = true;
    let mut i: usize = 0;
    while i < limit
        invariant
            n == prompt@.len(),
            limit <= n,
            head == prompt@.take(limit as int),
            i <= limit,
            chars@ == collapse(prompt@.take(i as int)),
            last_was_dash == (chars@.len() == 0 || chars@.last() == '-'),
        decreases limit - i,
    {
        let ch = prompt.get_char(i);
        proof {
            lemma_collapse_step(prompt@, i as int);
        }
        if ascii_alnum(ch) {
            chars.push(to_ascii_lower(ch));
            last_was_dash = false;
        } else if !last_was_dash {
            chars.push('-');
            last_was_dash = true;
        }
        i = i + 1;
    }
    let ghost whole = chars@;
    assert(whole == collapse(head));
    while chars.len() > 0 && chars[chars.len() - 1] == '-'
        invariant
            trim_dashes(chars@) == trim_dashes(whole),
        decreases chars.len(),
    {
        chars.pop();
    }
    assert(trim_dashes(chars@) == chars@);
    if chars.len() == 0 {
        return String::from_str("output");
    }
    let mut slug = String::new();
    let mut k: usize = 0;
    while k < chars.len()
        invariant
            k <= chars.len(),
            slug@ == chars@.take(k as int),
        decreases chars.len() - k,
    {
        push_char(&mut slug, chars[k]);
        k = k + 1;
        assert(slug@ =~= chars@.take(k as int));
    }
    assert(chars@.take(k as int) =~= chars@);
    slug
}

/// The path of the output file: the path given, if any; else
/// `<slug>-<unix seconds>.<ext>` in the working directory.
pub open spec fn spec_output_path(
    explicit: Option<Seq<char>>,
    prompt: Seq<char>,
    ext: Seq<char>,
    unix_secs: u64,
) -> Seq<char> {
    match explicit {
        Some(p) => p,
        None => spec_slugify(prompt) + "-"@ + decimal(unix_secs as nat) + "."@ + ext,
    }
}

/// The whole seconds since the Unix epoch by the system clock, 0 if the
/// clock is set before the epoch (`SystemTime::elapsed` on `UNIX_EPOCH`,
/// the `Duration` taken in whole seconds). Nothing is stated of the value:
/// it is whatever the clock says.
#[verifier::external_body]
fn unix_now_secs() -> (secs: u64) {
    match std::time::UNIX_EPOCH.elapsed() {
        Ok(d) => d.as_secs(),
        Err(_) => 0,
    }
}

/// The output path for a prompt at the given Unix time.
pub fn output_path_at(explicit: Option<&str>, prompt: &str, ext: &str, unix_secs: u64) -> (path:
    String)
    ensures
        path@ == spec_output_path(
            match explicit {
                Some(p) => Some(p@),
                None => None,
            },
            prompt@,
            ext@,
            unix_secs,
        ),
{
    match explicit {
        Some(p) => String::from_str(p),
        None => {
            let mut path = slugify(prompt);
            path.append("-");
            let ts = decimal_string(unix_secs);
            path.append(ts.as_str());
            path.append(".");
            path.append(ext);
            path
        },
    }
}

/// The output path for a prompt: the path given, if any; else the slug of
/// the prompt, a dash, the current Unix time in seconds, a dot and `ext`.
pub fn output_path(explicit: Option<&str>, prompt: &str, ext: &str) -> (path: String)
    ensures
        explicit matches Some(p) ==> path@ == p@,
        explicit is None ==> exists|t: u64|
            path@ == #[trigger] spec_output_path(None, prompt@, ext@, t),
{
    match explicit {
        Some(p) => String::from_str(p),
        None => {
            let t = unix_now_secs();
            output_path_at(None, prompt, ext, t)
        },
    }
}

/// The record printed for a generated file.
#[derive(Debug)]
pub struct SuccessJson {
    pub status: &'static str,
    pub file: String,
    pub provider: String,
    pub model: String,
    pub elapsed_ms: u64,
    pub prompt: String,
}

impl SuccessJson {
    /// The record for `output`, made from `prompt`: status `ok`, the file,
    /// provider and model of the output, its time in milliseconds.
    pub fn new(output: &MediaOutput, prompt: &str) -> (j: SuccessJson)
        ensures
            j.status@ == "ok"@,
            j.file@ == output.local_path@,
            j.provider@ == output.provider@,
            j.model@ == output.model@,
            j.elapsed_ms == output.elapsed.spec_millis(),
            j.prompt@ == prompt@,
    {
        SuccessJson {
            status: "ok",
            file: output.local_path.clone(),
            provider: output.provider.clone(),
            model: output.model.clone(),
            elapsed_ms: output.elapsed.millis(),
            prompt: String::from_str(prompt),
        }
    }
}

/// The record printed for an error.
#[derive(Debug)]
pub struct ErrorJson {
    pub status: &'static str,
    pub code: i32,
    pub error: String,
    pub suggestion: String,
}

impl ErrorJson {
    /// The record for `err`: status `error`, its exit code, its message and
    /// the advice for its kind.
    pub fn new(err: &GenaiError) -> (j: ErrorJson)
        ensures
            j.status@ == "error"@,
            j.code == spec_exit_code(err@.0),
            j.error@ == err@.1,
            j.suggestion@ == spec_suggestion(err@.0),
    {
        ErrorJson {
            status: "error",
            code: err.exit_code(),
            error: err.message(),
            suggestion: String::from_str(err.suggestion()),
        }
    }
}

/// The line that lists a model on a terminal: two spaces, the name padded
/// to 16 characters, the media type and the provider padded to 8, the
/// description, and ` (default)` for a default model.
pub open spec fn spec_model_line(m: crate::models::ModelView) -> Seq<char> {
    "  "@ + pad_right(m.name, 16) + " "@ + pad_right(m.media_type.spec_name(), 8) + " "@
        + pad_right(m.provider, 8) + " "@ + m.description + (if m.default {
        " (default)"@
    } else {
        ""@
    })
}

/// The terminal line that lists `m`.
pub fn model_line(m: &ModelInfo) -> (line: String)
    ensures
        line@ == spec_model_line(m@),
{
    let mut line = String::from_str("  ");
    let name = pad_to(m.name, 16);
    line.append(name.as_str());
    line.append(" ");
    let kind = pad_to(m.media_type.name(), 8);
    line.append(kind.as_str());
    line.append(" ");
    let provider = pad_to(m.provider, 8);
    line.append(provider.as_str());
    line.append(" ");
    line.append(m.description);
    if m.default {
        line.append(" (default)");
    } else {
        proof {
            reveal_strlit("");
            assert(line@ + ""@ =~= line@);
        }
    }
    line
}

} // verus!
