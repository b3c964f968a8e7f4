//! The rules that the repository check holds the working tree to.
use vstd::prelude::*;
use vstd::string::*;
use crate::text::{
    alnum_run_at_least, alnum_run_from, chars_of, contains_chars, contains_seq, find_from, first_occurrence_from,
    join_strings, join_with, lemma_first_occurrence, occurs_at, push_char, str_eq,
};

verus! {

/// The commit of the production dependency that the repository pins.
pub const EXPECTED_PRODUCT_SHA: &'static str = "a5e868acc0206fa9c3e91b5e36e0b1b111805885";

/// Files larger than this many bytes are not scanned.
pub const MAX_SCANNED_FILE_BYTES: u64 = 1_000_000;

/// How many ASCII letters and digits after a token prefix make a token.
pub const TOKEN_MIN_LEN: usize = 20;

/// Whether the text holds a token that starts with `prefix`, scanning from
/// position `start`: at each occurrence of the prefix, the token is there
/// when at least `TOKEN_MIN_LEN` ASCII letters and digits follow it; if not,
/// the scan resumes one character past the end of that occurrence.
pub open spec fn token_scan_from(text: Seq<char>, prefix: Seq<char>, start: int) -> bool
    decreases text.len() - start,
{
    if start < 0 || start > text.len() {
        false
    } else {
        match first_occurrence_from(text, prefix, start) {
            None => false,
            Some(i) => {
                let after = i + prefix.len();
                proof {
                    lemma_first_occurrence(text, prefix, start);
                }
                if alnum_run_from(text, after) >= TOKEN_MIN_LEN {
                    true
                } else if after >= text.len() {
                    false
                } else {
                    token_scan_from(text, prefix, after + 1)
                }
            },
        }
    }
}

/// Whether `text` holds a token that starts with `prefix`.
pub fn contains_token(text: &str, prefix: &str) -> (found: bool)
    requires
        prefix@.len() > 0,
    ensures
        found == token_scan_from(text@, prefix@, 0),
{
    let t = chars_of(text);
    let p = chars_of(prefix);
    let mut start: usize = 0;
    loop
        invariant
            start <= t@.len(),
            t@ == text@,
            p@ == prefix@,
            token_scan_from(t@, p@, 0) == token_scan_from(t@, p@, start as int),
        decreases t@.len() - start,
    {
        match find_from(&t, &p, start) {
            None => return false,
            Some(i) => {
                proof { lemma_first_occurrence(t@, p@, start as int); }
                assert(occurs_at(t@, p@, i as int));
                assert(i + p@.len() <= t@.len());
                assert(t@.len() == t.len() && p@.len() == p.len());
                let after = i + p.len();
                if alnum_run_at_least(&t, after, TOKEN_MIN_LEN) {
                    return true;
                }
                if after >= t.len() {
                    return false;
                }
                start = after + 1;
            },
        }
    }
}

/// A token that the scan reports is an occurrence of the prefix followed by
/// at least `TOKEN_MIN_LEN` ASCII letters and digits.
pub proof fn found_tokens_are_real(text: Seq<char>, prefix: Seq<char>, start: int)
    ensures
        token_scan_from(text, prefix, start) ==> exists|i: int|
            occurs_at(text, prefix, i) && alnum_run_from(text, #[trigger] (i + prefix.len())) >= TOKEN_MIN_LEN,
    decreases text.len() - start,
{
    if 0 <= start <= text.len() {
        lemma_first_occurrence(text, prefix, start);
        if let Some(i) = first_occurrence_from(text, prefix, start) {
            let after = i + prefix.len();
            if alnum_run_from(text, after) < TOKEN_MIN_LEN && after < text.len() {
                found_tokens_are_real(text, prefix, after + 1);
            }
        }
    }
}

/// The marker line of a PEM private key.
pub open spec fn private_key_marker() -> Seq<char> {
    "BEGIN"@ + " "@ + "PRIVATE KEY"@
}

/// The prefixes of GitHub tokens.
pub open spec fn token_prefixes() -> Seq<Seq<char>> {
    seq!["ghp_"@, "gho_"@, "ghu_"@, "ghs_"@, "ghr_"@]
}

/// Whether text looks like it holds a credential: a private key, or a GitHub token.
pub open spec fn credential_shaped_spec(text: Seq<char>) -> bool {
    contains_seq(text, private_key_marker()) || exists|k: int|
        0 <= k < token_prefixes().len() && token_scan_from(text, #[trigger] token_prefixes()[k], 0)
}

/// Whether `text` looks like it holds a credential.
pub fn credential_shaped(text: &str) -> (shaped: bool)
    ensures
        shaped == credential_shaped_spec(text@),
{
    let marker = String::from_str("BEGIN").concat(" ").concat("PRIVATE KEY");
    if contains_chars(&chars_of(text), &chars_of(marker.as_str())) {
        return true;
    }
    let prefixes: [&str; 5] = ["ghp_", "gho_", "ghu_", "ghs_", "ghr_"];
    proof {
        reveal_strlit("ghp_");
        reveal_strlit("gho_");
        reveal_strlit("ghu_");
        reveal_strlit("ghs_");
        reveal_strlit("ghr_");
        assert(prefixes@ =~= seq!["ghp_", "gho_", "ghu_", "ghs_", "ghr_"]);
    }
    let mut k: usize = 0;
    while k < 5
        invariant
            0 <= k <= 5,
            prefixes@ == seq!["ghp_", "gho_", "ghu_", "ghs_", "ghr_"],
            forall|j: int| 0 <= j < 5 ==> (#[trigger] prefixes@[j])@ == token_prefixes()[j] && token_prefixes()[j].len() == 4,
            forall|j: int| 0 <= j < k ==> !token_scan_from(text@, #[trigger] token_prefixes()[j], 0),
            !contains_seq(text@, private_key_marker()),
        decreases 5 - k,
    {
        if contains_token(text, prefixes[k]) {
            assert(token_scan_from(text@, token_prefixes()[k as int], 0));
            return true;
        }
        k = k + 1;
    }
    false
}

/// Letters and digits that follow `a` in `a + b` are those that start `b`.
proof fn lemma_alnum_run_after(a: Seq<char>, b: Seq<char>, i: int)
    requires
        0 <= i,
    ensures
        alnum_run_from(a + b, a.len() + i) == alnum_run_from(b, i),
    decreases b.len() - i,
{
    if i < b.len() {
        assert((a + b)[a.len() + i] == b[i]);
        lemma_alnum_run_after(a, b, i + 1);
        assert(a.len() + i + 1 == a.len() + (i + 1));
    }
}

/// Text that starts with one of the GitHub token prefixes `ghp_`, `gho_`,
/// `ghu_`, `ghs_`, `ghr_`, followed by at least `TOKEN_MIN_LEN` ASCII letters
/// or digits, is credential-shaped.
pub proof fn github_tokens_are_credentials(k: int, s: Seq<char>)
    requires
        0 <= k < 5,
        alnum_run_from(s, 0) >= TOKEN_MIN_LEN,
    ensures
        credential_shaped_spec(seq!["ghp_"@, "gho_"@, "ghu_"@, "ghs_"@, "ghr_"@][k] + s),
{
    reveal_strlit("ghp_");
    reveal_strlit("gho_");
    reveal_strlit("ghu_");
    reveal_strlit("ghs_");
    reveal_strlit("ghr_");
    let p = seq!["ghp_"@, "gho_"@, "ghu_"@, "ghs_"@, "ghr_"@][k];
    let t = p + s;
    assert(p.len() == 4);
    assert(t.subrange(0, p.len() as int) =~= p);
    assert(occurs_at(t, p, 0));
    assert(first_occurrence_from(t, p, 0) == Some(0int));
    lemma_alnum_run_after(p, s, 0);
    assert(alnum_run_from(t, p.len() as int) == alnum_run_from(s, 0));
    assert(token_scan_from(t, p, 0));
    assert(token_prefixes()[k] == p);
}

/// The scan does not enter `.git`, `vendor`, `target` or `artifacts`, and
/// enters every other directory.
pub proof fn skipped_components_are_the_tool_directories(name: Seq<char>)
    ensures
        skipped_component(".git"@),
        skipped_component("vendor"@),
        skipped_component("target"@),
        skipped_component("artifacts"@),
        skipped_component(name) ==> name == ".git"@ || name == "vendor"@ || name == "target"@ || name == "artifacts"@,
{
}

/// Whether a working-tree path component is one that the scan does not enter.
pub open spec fn skipped_component(name: Seq<char>) -> bool {
    name == ".git"@ || name == "vendor"@ || name == "target"@ || name == "artifacts"@
}

/// Whether the scan skips a path with these components.
pub fn should_skip(components: &Vec<String>) -> (skip: bool)
    ensures
        skip == exists|i: int| 0 <= i < components@.len() && skipped_component(#[trigger] components@[i]@),
{
    let mut i: usize = 0;
    while i < components.len()
        invariant
            0 <= i <= components@.len(),
            forall|j: int| 0 <= j < i ==> !skipped_component(#[trigger] components@[j]@),
        decreases components@.len() - i,
    {
        let c = components[i].as_str();
        if str_eq(c, ".git") || str_eq(c, "vendor") || str_eq(c, "target") || str_eq(c, "artifacts") {
            assert(skipped_component(components@[i as int]@));
            return true;
        }
        i = i + 1;
    }
    false
}

/// `count` copies of `c`.
fn repeated(c: char, count: usize) -> (s: String)
    ensures
        s@ == Seq::new(count as nat, |_i: int| c),
{
    let mut s = String::from_str("");
    proof { reveal_strlit(""); }
    let mut i: usize = 0;
    while i < count
        invariant
            0 <= i <= count,
            s@ == Seq::new(i as nat, |_j: int| c),
        decreases count - i,
    {
        push_char(&mut s, c);
        i = i + 1;
        assert(s@ =~= Seq::new(i as nat, |_j: int| c));
    }
    s
}

/// A merge conflict marker made of `c`.
pub open spec fn conflict_marker(c: char) -> Seq<char> {
    Seq::new(7, |_i: int| c)
}

/// Whether text holds a merge conflict marker.
pub open spec fn has_conflict_marker_spec(text: Seq<char>) -> bool {
    contains_seq(text, conflict_marker('<')) || contains_seq(text, conflict_marker('=')) || contains_seq(
        text,
        conflict_marker('>'),
    )
}

/// What the scan finds wrong with a file's text.
#[derive(Clone, Copy, Debug, PartialEq, Eq, Structural)]
pub enum Finding {
    ConflictMarker,
    Credential,
}

/// What the scan finds wrong with a file's text, if anything: a conflict
/// marker is reported before a credential.
pub fn scan_text(text: &str) -> (finding: Option<Finding>)
    ensures
        finding == if has_conflict_marker_spec(text@) {
            Some(Finding::ConflictMarker)
        } else if credential_shaped_spec(text@) {
            Some(Finding::Credential)
        } else {
            None
        },
{
    let t = chars_of(text);
    let lt = chars_of(repeated('<', 7).as_str());
    let eq = chars_of(repeated('=', 7).as_str());
    let gt = chars_of(repeated('>', 7).as_str());
    assert(lt@ =~= conflict_marker('<'));
    assert(eq@ =~= conflict_marker('='));
    assert(gt@ =~= conflict_marker('>'));
    if contains_chars(&t, &lt) || contains_chars(&t, &eq) || contains_chars(&t, &gt) {
        Some(Finding::ConflictMarker)
    } else if credential_shaped(text) {
        Some(Finding::Credential)
    } else {
        None
    }
}

/// Whether the scan reads a directory entry: a regular file of at most `MAX_SCANNED_FILE_BYTES`.
pub fn is_scannable(is_file: bool, len: u64) -> (scan: bool)
    ensures
        scan == (is_file && len <= MAX_SCANNED_FILE_BYTES),
{
    is_file && len <= MAX_SCANNED_FILE_BYTES
}

/// The paths of `files` that are not present, in order.
pub open spec fn missing_files(files: Seq<(String, bool)>) -> Seq<Seq<char>>
    decreases files.len(),
{
    if files.len() == 0 {
        Seq::empty()
    } else {
        let rest = missing_files(files.drop_last());
        if files.last().1 {
            rest
        } else {
            rest.push(files.last().0@)
        }
    }
}

/// Checks that every required file is present: `files` pairs each path with
/// whether it is a regular file. Otherwise the error names the missing ones.
pub fn require_files(files: &Vec<(String, bool)>) -> (r: Result<(), String>)
    ensures
        match r {
            Ok(()) => missing_files(files@).len() == 0,
            Err(message) => missing_files(files@).len() > 0 && message@ == "missing required files: "@ + join_with(
                missing_files(files@),
                ", "@,
            ),
        },
{
    let mut missing: Vec<String> = Vec::new();
    let mut i: usize = 0;
    while i < files.len()
        invariant
            0 <= i <= files@.len(),
            missing@.map_values(|p: String| p@) == missing_files(files@.take(i as int)),
        decreases files@.len() - i,
    {
        let (path, present) = &files[i];
        if !*present {
            missing.push(path.clone());
        }
        proof {
            assert(files@.take(i + 1).drop_last() =~= files@.take(i as int));
        }
        i = i + 1;
        assert(missing@.map_values(|p: String| p@) =~= missing_files(files@.take(i as int)));
    }
    assert(files@.take(files@.len() as int) =~= files@);
    if missing.len() == 0 {
        Ok(())
    } else {
        let list = join_strings(&missing, ", ");
        Err(String::from_str("missing required files: ").concat(list.as_str()))
    }
}

/// Checks the manifest's pin of the production dependency: the commit first,
/// then where it comes from.
pub fn check_manifest_pin(commit: &str, repository: &str, path: &str, transport: &str) -> (r: Result<(), String>)
    ensures
        r is Ok <==> (commit@ == EXPECTED_PRODUCT_SHA@ && repository@ == "declarative-migrations/declarative-postgres-migrate.rs"@
            && path@ == "vendor/declarative-postgres-migrate.rs"@ && transport@ == "git-submodule"@),
        match r {
            Ok(()) => true,
            Err(message) => if commit@ != EXPECTED_PRODUCT_SHA@ {
                message@ == "production dependency pin drifted in the manifest: expected "@ + EXPECTED_PRODUCT_SHA@
                    + ", observed "@ + commit@
            } else {
                message@ == "production dependency coordinates drifted in the manifest"@
            },
        },
{
    if !str_eq(commit, EXPECTED_PRODUCT_SHA) {
        return Err(
            String::from_str("production dependency pin drifted in the manifest: expected ").concat(
                EXPECTED_PRODUCT_SHA,
            ).concat(", observed ").concat(commit),
        );
    }
    if !str_eq(repository, "declarative-migrations/declarative-postgres-migrate.rs") || !str_eq(
        path,
        "vendor/declarative-postgres-migrate.rs",
    ) || !str_eq(transport, "git-submodule") {
        return Err(String::from_str("production dependency coordinates drifted in the manifest"));
    }
    Ok(())
}

/// The output of a command that the check runs: its standard output when it
/// succeeded, else an error that names the step and quotes its standard error.
/// Both texts come trimmed.
pub fn command_output(description: &str, success: bool, stdout: &str, stderr: &str) -> (r: Result<String, String>)
    ensures
        match r {
            Ok(out) => success && out@ == stdout@,
            Err(message) => !success && message@ == description@ + " failed: "@ + stderr@,
        },
{
    if success {
        Ok(String::from_str(stdout))
    } else {
        Err(String::from_str(description).concat(" failed: ").concat(stderr))
    }
}

/// Checks the commit that the dependency's checkout is at.
pub fn check_checkout(actual_commit: &str) -> (r: Result<(), String>)
    ensures
        match r {
            Ok(()) => actual_commit@ == EXPECTED_PRODUCT_SHA@,
            Err(message) => actual_commit@ != EXPECTED_PRODUCT_SHA@ && message@
                == "production dependency checkout drifted: expected "@ + EXPECTED_PRODUCT_SHA@ + ", observed "@
                + actual_commit@,
        },
{
    if str_eq(actual_commit, EXPECTED_PRODUCT_SHA) {
        Ok(())
    } else {
        Err(
            String::from_str("production dependency checkout drifted: expected ").concat(EXPECTED_PRODUCT_SHA).concat(
                ", observed ",
            ).concat(actual_commit),
        )
    }
}

/// Checks that git tracks no Python file: `listing` is git's list of them.
pub fn check_no_python(listing: &str) -> (r: Result<(), String>)
    ensures
        match r {
            Ok(()) => listing@.len() == 0,
            Err(message) => listing@.len() > 0 && message@ == "tracked Python files are not allowed:\n"@ + listing@,
        },
{
    if listing.unicode_len() == 0 {
        Ok(())
    } else {
        Err(String::from_str("tracked Python files are not allowed:\n").concat(listing))
    }
}

} // verus!
