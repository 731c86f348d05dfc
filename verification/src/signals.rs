//! Keyword signals of the prompt scorer: simple chat, hard task, coding task.

use vstd::prelude::*;
use crate::text::{chars_of, contains, contains_exec, ends_with, ends_with_exec, starts_with, starts_with_exec};

verus! {

/// Greetings and one-word replies that mark a simple chat turn.
pub open spec fn simple_keywords() -> Seq<Seq<char>> {
    seq![
        "hi"@,
        "hello"@,
        "hey"@,
        "thanks"@,
        "thank you"@,
        "ty"@,
        "ok"@,
        "okay"@,
        "what time"@,
        "who are you"@,
        "good morning"@,
        "good night"@,
        "lol"@,
        "yes"@,
        "no"@,
        "yep"@,
        "nope"@,
    ]
}

/// Words that mark a hard task (design, debugging, performance, ...).
pub open spec fn hard_keywords() -> Seq<Seq<char>> {
    seq![
        "architect"@,
        "architecture"@,
        "refactor"@,
        "migrate"@,
        "migration"@,
        "debug"@,
        "race condition"@,
        "deadlock"@,
        "security"@,
        "vulnerability"@,
        "exploit"@,
        "performance"@,
        "optimize"@,
        "optimisation"@,
        "optimization"@,
        "concurrency"@,
        "distributed"@,
        "multi-file"@,
        "multifile"@,
        "codebase-wide"@,
        "root cause"@,
        "investigate"@,
        "production outage"@,
        "p0"@,
        "sev1"@,
        "design doc"@,
        "tradeoff"@,
        "trade-off"@,
        "formal proof"@,
        "prove correctness"@,
    ]
}

/// Words that mark a coding task.
pub open spec fn coding_keywords() -> Seq<Seq<char>> {
    seq![
        "implement"@,
        "fix"@,
        "bug"@,
        "pr "@,
        "pull request"@,
        "unit test"@,
        "integration test"@,
        "write a test"@,
        "compile"@,
        "typecheck"@,
        "type error"@,
        "stack trace"@,
        "backtrace"@,
        "segfault"@,
        "panic"@,
        "diff"@,
        "patch"@,
        "commit"@,
        "merge conflict"@,
        "ci fail"@,
        "failing test"@,
        "flaky"@,
        "dockerfile"@,
        "kubernetes"@,
        "k8s"@,
        "sql"@,
        "regex"@,
        "async"@,
        "await"@,
        "lifetime"@,
        "borrow checker"@,
        "undefined behavior"@,
    ]
}

fn simple_keyword_list() -> (v: Vec<&'static str>)
    ensures
        v@.len() == simple_keywords().len(),
        forall|i: int| 0 <= i < v@.len() ==> #[trigger] v@[i]@ == simple_keywords()[i],
{
    let mut v: Vec<&'static str> = Vec::new();
    v.push("hi");
    v.push("hello");
    v.push("hey");
    v.push("thanks");
    v.push("thank you");
    v.push("ty");
    v.push("ok");
    v.push("okay");
    v.push("what time");
    v.push("who are you");
    v.push("good morning");
    v.push("good night");
    v.push("lol");
    v.push("yes");
    v.push("no");
    v.push("yep");
    v.push("nope");
    v
}

fn hard_keyword_list() -> (v: Vec<&'static str>)
    ensures
        v@.len() == hard_keywords().len(),
        forall|i: int| 0 <= i < v@.len() ==> #[trigger] v@[i]@ == hard_keywords()[i],
{
    let mut v: Vec<&'static str> = Vec::new();
    v.push("architect");
    v.push("architecture");
    v.push("refactor");
    v.push("migrate");
    v.push("migration");
    v.push("debug");
    v.push("race condition");
    v.push("deadlock");
    v.push("security");
    v.push("vulnerability");
    v.push("exploit");
    v.push("performance");
    v.push("optimize");
    v.push("optimisation");
    v.push("optimization");
    v.push("concurrency");
    v.push("distributed");
    v.push("multi-file");
    v.push("multifile");
    v.push("codebase-wide");
    v.push("root cause");
    v.push("investigate");
    v.push("production outage");
    v.push("p0");
    v.push("sev1");
    v.push("design doc");
    v.push("tradeoff");
    v.push("trade-off");
    v.push("formal proof");
    v.push("prove correctness");
    v
}

fn coding_keyword_list() -> (v: Vec<&'static str>)
    ensures
        v@.len() == coding_keywords().len(),
        forall|i: int| 0 <= i < v@.len() ==> #[trigger] v@[i]@ == coding_keywords()[i],
{
    let mut v: Vec<&'static str> = Vec::new();
    v.push("implement");
    v.push("fix");
    v.push("bug");
    v.push("pr ");
    v.push("pull request");
    v.push("unit test");
    v.push("integration test");
    v.push("write a test");
    v.push("compile");
    v.push("typecheck");
    v.push("type error");
    v.push("stack trace");
    v.push("backtrace");
    v.push("segfault");
    v.push("panic");
    v.push("diff");
    v.push("patch");
    v.push("commit");
    v.push("merge conflict");
    v.push("ci fail");
    v.push("failing test");
    v.push("flaky");
    v.push("dockerfile");
    v.push("kubernetes");
    v.push("k8s");
    v.push("sql");
    v.push("regex");
    v.push("async");
    v.push("await");
    v.push("lifetime");
    v.push("borrow checker");
    v.push("undefined behavior");
    v
}

/// `lower` is the keyword `k` alone, or begins with `k` followed by a space, `!` or `?`,
/// or ends with a space followed by `k`.
pub open spec fn simple_match(lower: Seq<char>, k: Seq<char>) -> bool {
    ||| lower == k
    ||| starts_with(lower, k.push(' '))
    ||| starts_with(lower, k.push('!'))
    ||| starts_with(lower, k.push('?'))
    ||| ends_with(lower, seq![' '] + k)
}

/// Some keyword of `ks` is a substring of `s`.
pub open spec fn contains_any(s: Seq<char>, ks: Seq<Seq<char>>) -> bool {
    exists|i: int| 0 <= i < ks.len() && #[trigger] contains(s, ks[i])
}

/// Short prompt (at most 120 chars) that matches a simple-chat keyword.
pub open spec fn simple_signal(lower: Seq<char>, char_len: int) -> bool {
    char_len <= 120 && exists|i: int|
        0 <= i < simple_keywords().len() && #[trigger] simple_match(lower, simple_keywords()[i])
}

/// The prompt names a hard task.
pub open spec fn hard_signal(lower: Seq<char>) -> bool {
    contains_any(lower, hard_keywords())
}

/// The prompt names a coding task.
pub open spec fn coding_signal(lower: Seq<char>) -> bool {
    contains_any(lower, coding_keywords())
}

/// Whether `s` begins with `k` followed by `c`.
fn starts_with_then(s: &Vec<char>, k: &Vec<char>, c: char) -> (b: bool)
    ensures
        b == starts_with(s@, k@.push(c)),
{
    if s.len() <= k.len() {
        assert(!starts_with(s@, k@.push(c)));
        return false;
    }
    if !starts_with_exec(s, k) {
        assert(!starts_with(s@, k@.push(c))) by {
            if starts_with(s@, k@.push(c)) {
                assert(s@.subrange(0, k@.len() as int) =~= s@.subrange(0, k@.len() + 1 as int).drop_last());
                assert(k@.push(c).drop_last() =~= k@);
            }
        }
        return false;
    }
    let r = s[k.len()] == c;
    assert(r == starts_with(s@, k@.push(c))) by {
        if r {
            assert(s@.subrange(0, k@.len() + 1 as int) =~= s@.subrange(0, k@.len() as int).push(c));
        } else if starts_with(s@, k@.push(c)) {
            assert(s@.subrange(0, k@.len() + 1 as int)[k@.len() as int] == c);
        }
    }
    r
}

/// Whether `s` ends with a space followed by `k`.
fn ends_with_space_then(s: &Vec<char>, k: &Vec<char>) -> (b: bool)
    ensures
        b == ends_with(s@, seq![' '] + k@),
{
    let mut sk: Vec<char> = Vec::new();
    sk.push(' ');
    let mut i: usize = 0;
    while i < k.len()
        invariant
            i <= k.len(),
            sk@ == seq![' '] + k@.take(i as int),
        decreases k.len() - i,
    {
        sk.push(k[i]);
        assert(seq![' '] + k@.take(i + 1) =~= (seq![' '] + k@.take(i as int)).push(k@[i as int]));
        i = i + 1;
    }
    assert(k@.take(k.len() as int) =~= k@);
    ends_with_exec(s, &sk)
}

/// Whether `lower` matches the simple-chat keyword `k`.
fn simple_match_exec(lower: &Vec<char>, k: &Vec<char>) -> (b: bool)
    ensures
        b == simple_match(lower@, k@),
{
    let same = lower.len() == k.len() && starts_with_exec(lower, k);
    assert(same == (lower@ == k@)) by {
        assert(lower@.len() == k@.len() ==> lower@ =~= lower@.subrange(0, k@.len() as int));
    }
    same || starts_with_then(lower, k, ' ') || starts_with_then(lower, k, '!')
        || starts_with_then(lower, k, '?') || ends_with_space_then(lower, k)
}

/// Short prompt that matches a simple-chat keyword.
pub fn has_simple_signal(lower: &Vec<char>, char_len: usize) -> (b: bool)
    ensures
        b == simple_signal(lower@, char_len as int),
{
    if char_len > 120 {
        return false;
    }
    let ks = simple_keyword_list();
    let mut i: usize = 0;
    while i < ks.len()
        invariant
            char_len <= 120,
            ks@.len() == simple_keywords().len(),
            forall|j: int| 0 <= j < ks@.len() ==> #[trigger] ks@[j]@ == simple_keywords()[j],
            i <= ks.len(),
            forall|j: int| 0 <= j < i ==> !#[trigger] simple_match(lower@, simple_keywords()[j]),
        decreases ks.len() - i,
    {
        let k = chars_of(ks[i]);
        if simple_match_exec(lower, &k) {
            assert(simple_match(lower@, simple_keywords()[i as int]));
            return true;
        }
        i = i + 1;
    }
    false
}

/// Whether some keyword of `ks` is a substring of `lower`.
fn contains_any_exec(lower: &Vec<char>, ks: &Vec<&'static str>, Ghost(spec_ks): Ghost<Seq<Seq<char>>>) -> (b: bool)
    requires
        ks@.len() == spec_ks.len(),
        forall|j: int| 0 <= j < ks@.len() ==> #[trigger] ks@[j]@ == spec_ks[j],
    ensures
        b == contains_any(lower@, spec_ks),
{
    let mut i: usize = 0;
    while i < ks.len()
        invariant
            ks@.len() == spec_ks.len(),
            forall|j: int| 0 <= j < ks@.len() ==> #[trigger] ks@[j]@ == spec_ks[j],
            i <= ks.len(),
            forall|j: int| 0 <= j < i ==> !#[trigger] contains(lower@, spec_ks[j]),
        decreases ks.len() - i,
    {
        let k = chars_of(ks[i]);
        if contains_exec(lower, &k) {
            assert(contains(lower@, spec_ks[i as int]));
            return true;
        }
        i = i + 1;
    }
    false
}

/// The prompt names a hard task.
pub fn has_hard_signal(lower: &Vec<char>) -> (b: bool)
    ensures
        b == hard_signal(lower@),
{
    let ks = hard_keyword_list();
    contains_any_exec(lower, &ks, Ghost(hard_keywords()))
}

/// The prompt names a coding task.
pub fn has_coding_signal(lower: &Vec<char>) -> (b: bool)
    ensures
        b == coding_signal(lower@),
{
    let ks = coding_keyword_list();
    contains_any_exec(lower, &ks, Ghost(coding_keywords()))
}

} // verus!
