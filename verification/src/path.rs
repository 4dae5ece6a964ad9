//! Filesystem destination handling: filename sanitization and templating,
//! traversal-safe validation of output paths, and collision-avoiding
//! selection of a free path.

use vstd::prelude::*;

use core::fmt::Write;

use crate::config::Config;
use crate::error::ScreenshotError;
use crate::text::push_char;
use crate::text::spec_decimal;
use crate::text::u64_to_string;

verus! {

/// A Unicode control character: the C0 range below space, delete, and the
/// C1 range.
pub open spec fn is_control_char(c: char) -> bool {
    (c as u32) < 32 || (127 <= (c as u32) && (c as u32) <= 159)
}

/// A character that may not appear in a filename: one of `<>:"|?*/\`
/// or a control character.
pub open spec fn is_forbidden_char(c: char) -> bool {
    ||| c == '<'
    ||| c == '>'
    ||| c == ':'
    ||| c == '"'
    ||| c == '|'
    ||| c == '?'
    ||| c == '*'
    ||| c == '/'
    ||| c == '\\'
    ||| is_control_char(c)
}

/// A forbidden character becomes an underscore; every other character is
/// kept.
pub open spec fn sanitize_char(c: char) -> char {
    if is_forbidden_char(c) {
        '_'
    } else {
        c
    }
}

/// Character-wise sanitization of a name: length is preserved, forbidden
/// characters are replaced by underscores.
pub open spec fn spec_sanitize(s: Seq<char>) -> Seq<char> {
    s.map_values(|c: char| sanitize_char(c))
}

/// Replaces every forbidden filename character (`<>:"|?*/\` and control
/// characters) with an underscore, preserving everything else.
pub fn sanitize_filename(name: &str) -> (r: String)
    ensures
        r@ == spec_sanitize(name@),
{
    let n = name.unicode_len();
    let mut out = String::new();
    let mut i: usize = 0;
    while i < n
        invariant
            i <= n,
            n == name@.len(),
            out@ == spec_sanitize(name@.subrange(0, i as int)),
        decreases n - i,
    {
        let c = name.get_char(i);
        let code = c as u32;
        let forbidden = c == '<' || c == '>' || c == ':' || c == '"' || c == '|' || c == '?' || c
            == '*' || c == '/' || c == '\\' || code < 32 || (127 <= code && code <= 159);
        let mapped = if forbidden {
            '_'
        } else {
            c
        };
        push_char(&mut out, mapped);
        proof {
            assert(name@.subrange(0, i + 1) =~= name@.subrange(0, i as int).push(name@[i as int]));
            assert(spec_sanitize(name@.subrange(0, i + 1)) =~= spec_sanitize(
                name@.subrange(0, i as int),
            ).push(sanitize_char(name@[i as int])));
        }
        i += 1;
    }
    proof {
        assert(name@.subrange(0, n as int) =~= name@);
    }
    out
}

/// Sanitization is idempotent and never introduces a forbidden character:
/// a second pass over an already sanitized name changes nothing, and no
/// position of the result holds a forbidden character.
pub proof fn lemma_sanitize_idempotent(s: Seq<char>)
    ensures
        spec_sanitize(spec_sanitize(s)) == spec_sanitize(s),
        forall|i: int|
            0 <= i < spec_sanitize(s).len() ==> !is_forbidden_char(#[trigger] spec_sanitize(s)[i]),
{
    assert forall|i: int|
        0 <= i < spec_sanitize(s).len() implies !is_forbidden_char(
        #[trigger] spec_sanitize(s)[i],
    ) by {
        assert(spec_sanitize(s)[i] == sanitize_char(s[i]));
        assert(!is_forbidden_char('_')) by {
            assert('_' as u32 == 95);
        }
    }
    assert(spec_sanitize(spec_sanitize(s)) =~= spec_sanitize(s));
}

/// A parent-directory traversal token: two consecutive dots anywhere in the
/// path's string form.
pub open spec fn spec_has_traversal(s: Seq<char>) -> bool {
    exists|i: int| 0 <= i && i + 1 < s.len() && (#[trigger] s[i]) == '.' && s[i + 1] == '.'
}

/// Rejects, with a permission error, any output path whose string form
/// contains a parent-directory traversal token, before anything touches the
/// filesystem. This is a textual defense, not a canonicalization: symlink
/// escapes are out of its scope.
pub fn validate_output_path(path: &str) -> (r: Result<(), ScreenshotError>)
    ensures
        r is Ok <==> !spec_has_traversal(path@),
        r matches Err(e) ==> e matches ScreenshotError::PermissionDenied(m) && m@
            == "Path traversal not allowed"@,
{
    let n = path.unicode_len();
    if n < 2 {
        return Ok(());
    }
    let mut i: usize = 0;
    while i + 1 < n
        invariant
            n == path@.len(),
            i + 1 <= n,
            forall|j: int| 0 <= j < i ==> !((#[trigger] path@[j]) == '.' && path@[j + 1] == '.'),
        decreases n - i,
    {
        if path.get_char(i) == '.' && path.get_char(i + 1) == '.' {
            return Err(
                ScreenshotError::PermissionDenied("Path traversal not allowed".to_owned()),
            );
        }
        i += 1;
    }
    Ok(())
}

/// A directory path extended by one more component, with a single slash
/// between them.
pub open spec fn spec_join(dir: Seq<char>, name: Seq<char>) -> Seq<char> {
    if dir.len() == 0 {
        name
    } else if dir.last() == '/' {
        dir + name
    } else {
        dir + "/"@ + name
    }
}

/// The path names something directly inside the directory: it is the
/// directory extended by one component.
pub open spec fn spec_under_dir(path: Seq<char>, dir: Seq<char>) -> bool {
    exists|name: Seq<char>| path == #[trigger] spec_join(dir, name)
}

/// Joins a directory and a filename with a single slash.
pub fn join_path(dir: &str, name: &str) -> (r: String)
    ensures
        r@ == spec_join(dir@, name@),
{
    let n = dir.unicode_len();
    if n == 0 {
        return name.to_owned();
    }
    let mut out = dir.to_owned();
    if dir.get_char(n - 1) != '/' {
        out.append("/");
    }
    out.append(name);
    out
}

/// A generated filename assembled from an optional prefix, a body, and an
/// extension: `body.ext`, or `prefix_body.ext` when the prefix is non-empty.
pub open spec fn spec_composed(prefix: Seq<char>, body: Seq<char>, ext: Seq<char>) -> Seq<char> {
    (if prefix.len() == 0 {
        body
    } else {
        prefix + "_"@ + body
    }) + "."@ + ext
}

pub(crate) fn compose_filename(prefix: &str, body: &str, ext: &str) -> (r: String)
    ensures
        r@ == spec_composed(prefix@, body@, ext@),
{
    let mut out = String::new();
    if prefix.unicode_len() > 0 {
        out.append(prefix);
        out.append("_");
    }
    out.append(body);
    out.append(".");
    out.append(ext);
    out
}

/// Whether chrono's formatter accepts a strftime template: acceptance
/// depends on the template alone, never on the time being formatted.
pub uninterp spec fn template_ok(template: Seq<char>) -> bool;

/// Relies on chrono's Local::now and DateTime::format: renders the current
/// local time through the given strftime template. Whether the formatter
/// accepts the template is a function of the template alone; what it
/// renders depends on the clock, so nothing more is said of the contents.
#[verifier::external_body]
pub(crate) fn format_now(template: &str) -> (r: Option<String>)
    ensures
        r is Some <==> template_ok(template@),
{
    let mut out = String::new();
    match write!(out, "{}", chrono::Local::now().format(template)) {
        Ok(()) => Some(out),
        Err(_) => None,
    }
}

/// Builds the output filename for one capture. A custom filename bypasses
/// the template and timestamp entirely: the result is exactly its
/// sanitized form plus the configured extension, and never fails.
/// Otherwise the name is produced exactly when the formatter accepts the
/// template: it is the rendered template, prefixed when a prefix is given,
/// plus the extension; a rejected template is a configuration error
/// carrying that template.
pub fn generate_filename(config: &Config, prefix: &str) -> (r: Result<String, ScreenshotError>)
    ensures
        config.custom_filename matches Some(c) ==> (r matches Ok(name) && name@ == spec_sanitize(
            c@,
        ) + "."@ + config.default_format@),
        config.custom_filename is None ==> (r is Ok <==> template_ok(config.filename_template@)),
        config.custom_filename is None ==> (match r {
            Ok(name) => exists|body: Seq<char>|
                name@ == spec_composed(prefix@, body, config.default_format@),
            Err(e) => e matches ScreenshotError::ConfigError(m) && m@
                == config.filename_template@,
        }),
{
    match &config.custom_filename {
        Some(custom) => {
            let mut name = sanitize_filename(custom.as_str());
            name.append(".");
            name.append(config.default_format.as_str());
            Ok(name)
        },
        None => {
            match format_now(config.filename_template.as_str()) {
                Some(formatted) => {
                    let ghost body = formatted@;
                    let name = compose_filename(
                        prefix,
                        formatted.as_str(),
                        config.default_format.as_str(),
                    );
                    proof {
                        assert(name@ == spec_composed(prefix@, body, config.default_format@));
                    }
                    Ok(name)
                },
                None => Err(ScreenshotError::ConfigError(config.filename_template.clone())),
            }
        },
    }
}

/// The index of the last occurrence of a character, or -1 when it does not
/// occur.
pub open spec fn spec_last_index_of(s: Seq<char>, c: char) -> int
    decreases s.len(),
{
    if s.len() == 0 {
        -1
    } else if s.last() == c {
        s.len() - 1
    } else {
        spec_last_index_of(s.drop_last(), c)
    }
}

proof fn lemma_last_index_bounds(s: Seq<char>, c: char)
    ensures
        -1 <= spec_last_index_of(s, c) < s.len(),
    decreases s.len(),
{
    if s.len() > 0 && s.last() != c {
        lemma_last_index_bounds(s.drop_last(), c);
    }
}

proof fn lemma_last_index_step(s: Seq<char>, i: int, c: char)
    requires
        0 <= i < s.len(),
    ensures
        spec_last_index_of(s.subrange(0, i + 1), c) == (if s[i] == c {
            i
        } else {
            spec_last_index_of(s.subrange(0, i), c)
        }),
{
    let ext = s.subrange(0, i + 1);
    assert(ext.last() == s[i]);
    assert(ext.drop_last() =~= s.subrange(0, i));
}

fn last_index_of(s: &str, c: char) -> (r: Option<usize>)
    ensures
        match r {
            Some(i) => i < s@.len() && spec_last_index_of(s@, c) == i,
            None => spec_last_index_of(s@, c) == -1,
        },
{
    let n = s.unicode_len();
    let mut best: Option<usize> = None;
    let mut i: usize = 0;
    proof {
        assert(s@.subrange(0, 0) =~= Seq::<char>::empty());
    }
    while i < n
        invariant
            i <= n,
            n == s@.len(),
            match best {
                Some(j) => j < i && spec_last_index_of(s@.subrange(0, i as int), c) == j,
                None => spec_last_index_of(s@.subrange(0, i as int), c) == -1,
            },
        decreases n - i,
    {
        proof {
            lemma_last_index_step(s@, i as int, c);
        }
        if s.get_char(i) == c {
            best = Some(i);
        }
        i += 1;
    }
    proof {
        assert(s@.subrange(0, n as int) =~= s@);
    }
    best
}

/// The directory prefix of a path, up to and including the last slash
/// (empty when there is no slash).
pub open spec fn spec_dir(s: Seq<char>) -> Seq<char> {
    s.subrange(0, spec_last_index_of(s, '/') + 1)
}

/// The file stem of a path: what stands between the last slash and the
/// last dot.
pub open spec fn spec_stem(s: Seq<char>) -> Seq<char> {
    s.subrange(spec_last_index_of(s, '/') + 1, spec_last_index_of(s, '.'))
}

/// The extension of a path: what follows the last dot.
pub open spec fn spec_ext(s: Seq<char>) -> Seq<char> {
    s.subrange(spec_last_index_of(s, '.') + 1, s.len() as int)
}

/// The path has a non-empty stem followed by a dot in its last component,
/// so a stem and an extension can be split off.
pub open spec fn spec_splittable(s: Seq<char>) -> bool {
    spec_last_index_of(s, '.') > spec_last_index_of(s, '/') + 1
}

/// The numbered variant `dir/stem_k.ext` probed while searching for a free
/// path.
pub open spec fn spec_numbered(s: Seq<char>, k: nat) -> Seq<char> {
    spec_dir(s) + spec_stem(s) + "_"@ + spec_decimal(k) + "."@ + spec_ext(s)
}

/// The fallback variant `dir/stem_10000_token.ext` used when every counter
/// up to 9999 is taken.
pub open spec fn spec_token_named(s: Seq<char>, token: Seq<char>) -> Seq<char> {
    spec_dir(s) + spec_stem(s) + "_"@ + spec_decimal(10000) + "_"@ + token + "."@ + spec_ext(s)
}

/// Relies on std::path::Path::exists: probes whether the path currently
/// names anything on disk.
#[verifier::external_body]
pub(crate) fn path_exists(path: &str) -> (r: bool) {
    std::path::Path::new(path).exists()
}

/// Relies on uuid::Uuid::new_v4: a freshly drawn random identifier in its
/// hyphenated rendering. Like allocation, the draw aborts only if the
/// operating system's randomness source itself fails.
#[verifier::external_body]
fn fresh_token() -> (r: String) {
    format!("{}", uuid::Uuid::new_v4())
}

/// Returns `path` itself when nothing on disk has that name. Otherwise
/// probes the numbered variants `stem_1.ext`, `stem_2.ext`, ... up to 9999
/// and returns the first free one; when every counter is taken, falls back
/// to a variant carrying a random token. The ghost record holds the
/// existence probes in the order they were made — the path itself first,
/// then each numbered variant — and ties the result to them: probing stops
/// at the first free name, which is the one returned (the path unchanged
/// when it was free itself, the variant numbered by the free probe's
/// position otherwise), and the token variant is returned exactly when all
/// ten thousand probes found their name taken. Each probe is a
/// check-then-act: the result is free at the moment of its check, which is
/// not safe against a concurrent writer racing the caller.
pub fn ensure_unique_filename(path: String) -> (r: (String, Ghost<Seq<bool>>))
    requires
        spec_splittable(path@),
    ensures
        ({
            let out = r.0;
            let probes = r.1@;
            &&& 1 <= probes.len() <= 10000
            &&& (forall|i: int| 0 <= i < probes.len() - 1 ==> probes[i] == true)
            &&& (!probes.last() && probes.len() == 1 ==> out@ == path@)
            &&& (!probes.last() && probes.len() > 1 ==> out@ == spec_numbered(
                path@,
                (probes.len() - 1) as nat,
            ))
            &&& (probes.last() ==> probes.len() == 10000 && (exists|token: Seq<char>|
                out@ == spec_token_named(path@, token)))
        }),
{
    let ghost mut probes: Seq<bool> = Seq::empty();
    let taken = path_exists(path.as_str());
    proof {
        probes = probes.push(taken);
    }
    if !taken {
        return (path, Ghost(probes));
    }
    proof {
        lemma_last_index_bounds(path@, '.');
        lemma_last_index_bounds(path@, '/');
    }
    let n = path.as_str().unicode_len();
    let slash = last_index_of(path.as_str(), '/');
    let dot = match last_index_of(path.as_str(), '.') {
        Some(d) => d,
        None => {
            proof {
                assert(false);
            }
            return (path, Ghost(probes));
        },
    };
    let start = match slash {
        Some(s) => s + 1,
        None => 0,
    };
    let dir = path.as_str().substring_char(0, start).to_owned();
    let stem = path.as_str().substring_char(start, dot).to_owned();
    let ext = path.as_str().substring_char(dot + 1, n).to_owned();
    let mut counter: u32 = 1;
    loop
        invariant
            1 <= counter <= 9999,
            probes.len() == counter,
            forall|i: int| 0 <= i < probes.len() ==> probes[i] == true,
            dir@ == spec_dir(path@),
            stem@ == spec_stem(path@),
            ext@ == spec_ext(path@),
        decreases 9999 - counter,
    {
        let mut candidate = dir.clone();
        candidate.append(stem.as_str());
        candidate.append("_");
        let num = u64_to_string(counter as u64);
        candidate.append(num.as_str());
        candidate.append(".");
        candidate.append(ext.as_str());
        proof {
            assert(candidate@ =~= spec_numbered(path@, counter as nat));
        }
        let candidate_taken = path_exists(candidate.as_str());
        proof {
            probes = probes.push(candidate_taken);
        }
        if !candidate_taken {
            return (candidate, Ghost(probes));
        }
        if counter >= 9999 {
            let token = fresh_token();
            let ghost t = token@;
            let mut fallback = dir.clone();
            fallback.append(stem.as_str());
            fallback.append("_");
            let num10000 = u64_to_string(10000);
            fallback.append(num10000.as_str());
            fallback.append("_");
            fallback.append(token.as_str());
            fallback.append(".");
            fallback.append(ext.as_str());
            proof {
                assert(fallback@ =~= spec_token_named(path@, t));
            }
            return (fallback, Ghost(probes));
        }
        counter += 1;
    }
}

} // verus!
