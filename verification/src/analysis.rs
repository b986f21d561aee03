//! Analysis of the entries of an open vault: which passwords are used more
//! than once, and how strong each password is.
//!
//! Strength is scored by an oracle outside this library. The library says
//! which passwords are to be scored; the host asks the oracle and hands its
//! answers in, each with the password that it is for.

use crate::encoding::texts_view;
use crate::entry::{PasswordData, PasswordDataView};
use crate::manager::{entries_view, uuids_distinct};
use vstd::prelude::*;

verus! {

/// The highest score that the strength oracle gives.
pub const MAX_SCORE: u8 = 4;

/// The lists that an analysis gives, each of identifiers.
#[derive(Debug)]
pub struct AnalyseResult {
    pub reused: Vec<String>,
    pub very_strong: Vec<String>,
    pub strong: Vec<String>,
    pub medium: Vec<String>,
    pub weak: Vec<String>,
    pub very_weak: Vec<String>,
}

/// The model of an `AnalyseResult`.
pub struct AnalyseResultView {
    pub reused: Seq<Seq<char>>,
    pub very_strong: Seq<Seq<char>>,
    pub strong: Seq<Seq<char>>,
    pub medium: Seq<Seq<char>>,
    pub weak: Seq<Seq<char>>,
    pub very_weak: Seq<Seq<char>>,
}

impl View for AnalyseResult {
    type V = AnalyseResultView;

    open spec fn view(&self) -> AnalyseResultView {
        AnalyseResultView {
            reused: texts_view(self.reused@),
            very_strong: texts_view(self.very_strong@),
            strong: texts_view(self.strong@),
            medium: texts_view(self.medium@),
            weak: texts_view(self.weak@),
            very_weak: texts_view(self.very_weak@),
        }
    }
}

/// The password of an entry that has one and whose password is not empty.
pub open spec fn password_of(entry: PasswordDataView) -> Option<Seq<char>> {
    if entry.has_password() {
        entry.password
    } else {
        None
    }
}

/// Whether the entries at `i` and `j` are two entries with the same
/// password.
pub open spec fn reuses(entries: Seq<PasswordDataView>, i: int, j: int) -> bool {
    &&& password_of(entries[i]) is Some
    &&& password_of(entries[i]) == password_of(entries[j])
    &&& entries[i].uuid != entries[j].uuid
}

/// What the entry at `i` adds to the list of reused passwords with the
/// entries after it and before `upto`: for each one with the same password,
/// that entry's identifier and its own.
pub open spec fn reused_with(entries: Seq<PasswordDataView>, i: int, upto: int) -> Seq<Seq<char>>
    decreases upto - i,
{
    if upto <= i + 1 {
        Seq::<Seq<char>>::empty()
    } else if reuses(entries, i, upto - 1) {
        reused_with(entries, i, upto - 1).push(entries[upto - 1].uuid).push(
            entries[i].uuid,
        )
    } else {
        reused_with(entries, i, upto - 1)
    }
}

/// The list of reused passwords as far as the first `n` entries add to it.
pub open spec fn reused_upto(entries: Seq<PasswordDataView>, n: int) -> Seq<Seq<char>>
    decreases n,
{
    if n <= 0 {
        Seq::<Seq<char>>::empty()
    } else {
        reused_upto(entries, n - 1) + reused_with(entries, n - 1, entries.len() as int)
    }
}

/// The list of reused passwords: two identifiers for every pair of entries
/// with the same password, pairs in the order of their first, then of their
/// second entry.
pub open spec fn reused(entries: Seq<PasswordDataView>) -> Seq<Seq<char>> {
    reused_upto(entries, entries.len() as int)
}

/// An answer of the strength oracle: a password, and the score that the
/// oracle gave for it.
#[derive(Debug)]
pub struct Answer {
    pub password: String,
    pub score: u8,
}

/// The model of an `Answer`.
pub struct AnswerView {
    pub password: Seq<char>,
    pub score: u8,
}

impl View for Answer {
    type V = AnswerView;

    open spec fn view(&self) -> AnswerView {
        AnswerView { password: self.password@, score: self.score }
    }
}

/// The model of a list of answers.
pub open spec fn answers_view(answers: Seq<Answer>) -> Seq<AnswerView> {
    answers.map_values(|a: Answer| a@)
}

/// The score of `password` by the answers: that of the first answer given
/// for it, if there is one.
pub open spec fn score_for(answers: Seq<AnswerView>, password: Seq<char>) -> Option<u8>
    decreases answers.len(),
{
    if answers.len() == 0 {
        None
    } else if answers.first().password == password {
        Some(answers.first().score)
    } else {
        score_for(answers.drop_first(), password)
    }
}

/// The passwords that are to be scored: the password of each entry that has
/// one, in the order of the entries.
pub open spec fn to_score(entries: Seq<PasswordDataView>) -> Seq<Seq<char>> {
    entries.filter(|e: PasswordDataView| password_of(e) is Some).map_values(
        |e: PasswordDataView| password_of(e).unwrap(),
    )
}

/// Whether the entry at `i` belongs to the bucket of the score `score`: it
/// has a password, and the answers score that password so.
pub open spec fn in_bucket(
    entries: Seq<PasswordDataView>,
    answers: Seq<AnswerView>,
    score: u8,
    i: int,
) -> bool {
    password_of(entries[i]) matches Some(password) && score_for(answers, password) == Some(score)
}

/// The bucket of `score` as far as the first `n` entries fill it.
pub open spec fn bucket_upto(
    entries: Seq<PasswordDataView>,
    answers: Seq<AnswerView>,
    score: u8,
    n: int,
) -> Seq<Seq<char>>
    decreases n,
{
    if n <= 0 {
        Seq::<Seq<char>>::empty()
    } else if in_bucket(entries, answers, score, n - 1) {
        bucket_upto(entries, answers, score, n - 1).push(entries[n - 1].uuid)
    } else {
        bucket_upto(entries, answers, score, n - 1)
    }
}

/// The bucket of `score`: the identifiers of the entries with a password
/// that the answers score `score`, in the order of the entries.
pub open spec fn bucket(entries: Seq<PasswordDataView>, answers: Seq<AnswerView>, score: u8) -> Seq<
    Seq<char>,
> {
    bucket_upto(entries, answers, score, entries.len() as int)
}

/// The analysis of `entries` under the answers of the strength oracle. An
/// entry without a password, with a password that has no answer, or with a
/// score above `MAX_SCORE` is in no bucket.
pub open spec fn analysis(entries: Seq<PasswordDataView>, answers: Seq<AnswerView>) -> AnalyseResultView {
    AnalyseResultView {
        reused: reused(entries),
        very_strong: bucket(entries, answers, 4),
        strong: bucket(entries, answers, 3),
        medium: bucket(entries, answers, 2),
        weak: bucket(entries, answers, 1),
        very_weak: bucket(entries, answers, 0),
    }
}

/// What is told of the strength of `password` under the answers of the
/// strength oracle: its score, from 0 to `MAX_SCORE`; a failure for the
/// empty password, which is not scored, for a password without an answer
/// and for a score above `MAX_SCORE`.
pub open spec fn strength_of(answers: Seq<AnswerView>, password: Seq<char>) -> Result<u8, ()> {
    match score_for(answers, password) {
        Some(score) => if password.len() > 0 && score <= MAX_SCORE {
            Ok(score)
        } else {
            Err(())
        },
        None => Err(()),
    }
}

/// The score of `password` by the answers.
pub fn find_score(answers: &Vec<Answer>, password: &String) -> (score: Option<u8>)
    ensures
        score == score_for(answers_view(answers@), password@),
{
    let ghost model = answers_view(answers@);
    let mut i: usize = 0;
    assert(model.skip(0) =~= model);
    while i < answers.len()
        invariant
            i <= answers.len(),
            model == answers_view(answers@),
            score_for(model, password@) == score_for(model.skip(i as int), password@),
        decreases answers.len() - i,
    {
        assert(model.skip(i as int).drop_first() =~= model.skip(i + 1));
        if answers[i].password == *password {
            return Some(answers[i].score);
        }
        i = i + 1;
    }
    None
}

/// The strength of `password` under the answers of the strength oracle.
pub fn strength(answers: &Vec<Answer>, password: &String) -> (r: Result<u8, ()>)
    ensures
        r == strength_of(answers_view(answers@), password@),
{
    match find_score(answers, password) {
        Some(score) => if is_scored(password.as_str()) && score <= MAX_SCORE {
            Ok(score)
        } else {
            Err(())
        },
        None => Err(()),
    }
}

/// Tells whether a password is to be scored by the strength oracle: every
/// password is but the empty one.
pub fn is_scored(password: &str) -> (b: bool)
    ensures
        b == (password@.len() > 0),
{
    !password.is_empty()
}

/// The password of the entry, where it is a plain entry whose password is
/// not empty.
fn entry_password(entry: &PasswordData) -> (password: Option<&String>)
    ensures
        match password {
            Some(p) => password_of(entry@) == Some(p@),
            None => password_of(entry@) is None,
        },
{
    match &entry.password {
        Some(p) => if is_scored(p.as_str()) {
            Some(p)
        } else {
            None
        },
        None => None,
    }
}

/// Whether two entries are entries with the same password.
fn pair_reuses(entries: &Vec<PasswordData>, i: usize, j: usize) -> (b: bool)
    requires
        i < entries.len(),
        j < entries.len(),
    ensures
        b == reuses(entries_view(entries@), i as int, j as int),
{
    let same_password = match (entry_password(&entries[i]), entry_password(&entries[j])) {
        (Some(a), Some(b)) => *a == *b,
        _ => false,
    };
    if !same_password {
        return false;
    }
    entries[i].uuid != entries[j].uuid
}

/// The list of reused passwords.
pub fn find_reused(entries: &Vec<PasswordData>) -> (list: Vec<String>)
    ensures
        texts_view(list@) == reused(entries_view(entries@)),
{
    let ghost model = entries_view(entries@);
    let n = entries.len();
    let mut list: Vec<String> = Vec::new();
    let mut i: usize = 0;
    while i < n
        invariant
            i <= n,
            n == entries.len(),
            model == entries_view(entries@),
            texts_view(list@) == reused_upto(model, i as int),
        decreases n - i,
    {
        let ghost before = texts_view(list@);
        let mut j: usize = i + 1;
        while j < n
            invariant
                i < j <= n,
                n == entries.len(),
                model == entries_view(entries@),
                texts_view(list@) == before + reused_with(model, i as int, j as int),
            decreases n - j,
        {
            let ghost earlier = texts_view(list@);
            if pair_reuses(entries, i, j) {
                list.push(entries[j].uuid.clone());
                list.push(entries[i].uuid.clone());
                assert(texts_view(list@) =~= earlier.push(model[j as int].uuid).push(
                    model[i as int].uuid,
                ));
            }
            j = j + 1;
        }
        i = i + 1;
    }
    list
}

/// The passwords that are to be scored: the password of each entry that has
/// one, in the order of the entries. An entry without a password, or with
/// the empty password, is not scored.
pub fn passwords_to_score(entries: &Vec<PasswordData>) -> (list: Vec<String>)
    ensures
        texts_view(list@) == to_score(entries_view(entries@)),
{
    let ghost model = entries_view(entries@);
    let ghost scored = |e: PasswordDataView| password_of(e) is Some;
    let ghost text = |e: PasswordDataView| password_of(e).unwrap();
    let mut list: Vec<String> = Vec::new();
    let mut i: usize = 0;
    proof {
        reveal(Seq::filter);
    }
    while i < entries.len()
        invariant
            i <= entries.len(),
            model == entries_view(entries@),
            scored == |e: PasswordDataView| password_of(e) is Some,
            text == |e: PasswordDataView| password_of(e).unwrap(),
            texts_view(list@) == model.take(i as int).filter(scored).map_values(text),
        decreases entries.len() - i,
    {
        proof {
            reveal(Seq::filter);
            assert(model.take(i + 1).drop_last() =~= model.take(i as int));
        }
        let ghost earlier = model.take(i as int).filter(scored);
        if let Some(password) = entry_password(&entries[i]) {
            list.push(password.clone());
            assert(earlier.push(model[i as int]).map_values(text) =~= earlier.map_values(
                text,
            ).push(text(model[i as int])));
        }
        i = i + 1;
    }
    assert(model.take(i as int) =~= model);
    list
}

/// The analysis of the entries under the answers of the strength oracle:
/// which passwords are used more than once, and the bucket of each password
/// by its score. An entry without a password, with a password that has no
/// answer, or with a score above `MAX_SCORE` is in no bucket.
pub fn analyse_scored(entries: &Vec<PasswordData>, answers: &Vec<Answer>) -> (result:
    AnalyseResult)
    ensures
        result@ == analysis(entries_view(entries@), answers_view(answers@)),
{
    let ghost model = entries_view(entries@);
    let ghost table = answers_view(answers@);
    let n = entries.len();
    let mut very_strong: Vec<String> = Vec::new();
    let mut strong: Vec<String> = Vec::new();
    let mut medium: Vec<String> = Vec::new();
    let mut weak: Vec<String> = Vec::new();
    let mut very_weak: Vec<String> = Vec::new();
    let mut i: usize = 0;
    while i < n
        invariant
            i <= n,
            n == entries.len(),
            model == entries_view(entries@),
            table == answers_view(answers@),
            texts_view(very_strong@) == bucket_upto(model, table, 4, i as int),
            texts_view(strong@) == bucket_upto(model, table, 3, i as int),
            texts_view(medium@) == bucket_upto(model, table, 2, i as int),
            texts_view(weak@) == bucket_upto(model, table, 1, i as int),
            texts_view(very_weak@) == bucket_upto(model, table, 0, i as int),
        decreases n - i,
    {
        let score = match entry_password(&entries[i]) {
            Some(password) => find_score(answers, password),
            None => None,
        };
        match score {
            Some(0) => very_weak.push(entries[i].uuid.clone()),
            Some(1) => weak.push(entries[i].uuid.clone()),
            Some(2) => medium.push(entries[i].uuid.clone()),
            Some(3) => strong.push(entries[i].uuid.clone()),
            Some(4) => very_strong.push(entries[i].uuid.clone()),
            _ => {},
        }
        i = i + 1;
    }
    let reused = find_reused(entries);
    AnalyseResult { reused, very_strong, strong, medium, weak, very_weak }
}

/// Whether the pair of entries at `i` and `j` puts the identifier `uuid` on
/// the list of reused passwords.
pub open spec fn lists(entries: Seq<PasswordDataView>, uuid: Seq<char>, i: int, j: int) -> bool {
    reuses(entries, i, j) && (entries[i].uuid == uuid || entries[j].uuid == uuid)
}

/// An item is in a sequence with one more item if it is in the sequence or
/// is that item.
proof fn lemma_push_contains<A>(s: Seq<A>, x: A, needle: A)
    ensures
        s.push(x).contains(needle) <==> s.contains(needle) || x == needle,
{
    if s.contains(needle) {
        let k = choose|k: int| 0 <= k < s.len() && s[k] == needle;
        assert(s.push(x)[k] == needle);
    }
    if x == needle {
        assert(s.push(x)[s.len() as int] == needle);
    }
}

/// An item is in two sequences joined if it is in one of them.
proof fn lemma_add_contains<A>(a: Seq<A>, b: Seq<A>, needle: A)
    ensures
        (a + b).contains(needle) <==> a.contains(needle) || b.contains(needle),
{
    if a.contains(needle) {
        let k = choose|k: int| 0 <= k < a.len() && a[k] == needle;
        assert((a + b)[k] == needle);
    }
    if b.contains(needle) {
        let k = choose|k: int| 0 <= k < b.len() && b[k] == needle;
        assert((a + b)[a.len() + k] == needle);
    }
}

/// What the entry at `i` adds to the list holds an identifier exactly where
/// a pair of it and a later entry lists that identifier.
proof fn lemma_reused_with_members(
    entries: Seq<PasswordDataView>,
    i: int,
    upto: int,
    uuid: Seq<char>,
)
    requires
        0 <= i,
        upto <= entries.len(),
    ensures
        reused_with(entries, i, upto).contains(uuid) <==> exists|j: int|
            i < j < upto && #[trigger] lists(entries, uuid, i, j),
    decreases upto - i,
{
    if upto > i + 1 {
        let rest = reused_with(entries, i, upto - 1);
        lemma_reused_with_members(entries, i, upto - 1, uuid);
        if reuses(entries, i, upto - 1) {
            let first = entries[upto - 1].uuid;
            let second = entries[i].uuid;
            lemma_push_contains(rest, first, uuid);
            lemma_push_contains(rest.push(first), second, uuid);
            if first == uuid || second == uuid {
                assert(lists(entries, uuid, i, upto - 1));
            }
        }
    }
}

/// The list as far as the first `n` entries add to it holds an identifier
/// exactly where a pair of one of them and a later entry lists it.
proof fn lemma_reused_upto_members(entries: Seq<PasswordDataView>, n: int, uuid: Seq<char>)
    requires
        0 <= n <= entries.len(),
    ensures
        reused_upto(entries, n).contains(uuid) <==> exists|i: int, j: int|
            0 <= i < n && i < j < entries.len() && #[trigger] lists(entries, uuid, i, j),
    decreases n,
{
    if n > 0 {
        let head = reused_upto(entries, n - 1);
        let tail = reused_with(entries, n - 1, entries.len() as int);
        lemma_reused_upto_members(entries, n - 1, uuid);
        lemma_reused_with_members(entries, n - 1, entries.len() as int, uuid);
        lemma_add_contains(head, tail, uuid);
    }
}

/// The list of reused passwords holds an identifier exactly where two
/// entries with the same password, one of them under that identifier, are
/// in the vault.
pub proof fn lemma_reused_members(entries: Seq<PasswordDataView>, uuid: Seq<char>)
    ensures
        reused(entries).contains(uuid) <==> exists|i: int, j: int|
            0 <= i < j < entries.len() && #[trigger] lists(entries, uuid, i, j),
{
    lemma_reused_upto_members(entries, entries.len() as int, uuid);
}

/// Two entries with the same password, which is not empty, are both on the
/// list of reused passwords.
pub proof fn lemma_shared_password_reused(entries: Seq<PasswordDataView>, i: int, j: int)
    requires
        0 <= i < entries.len(),
        0 <= j < entries.len(),
        reuses(entries, i, j),
    ensures
        reused(entries).contains(entries[i].uuid),
        reused(entries).contains(entries[j].uuid),
{
    lemma_reused_members(entries, entries[i].uuid);
    lemma_reused_members(entries, entries[j].uuid);
    if i < j {
        assert(lists(entries, entries[i].uuid, i, j));
        assert(lists(entries, entries[j].uuid, i, j));
    } else {
        assert(lists(entries, entries[i].uuid, j, i));
        assert(lists(entries, entries[j].uuid, j, i));
    }
}

/// Where identifiers are distinct, an entry whose password no other entry
/// has is not on the list of reused passwords.
pub proof fn lemma_unique_password_not_reused(entries: Seq<PasswordDataView>, i: int)
    requires
        uuids_distinct(entries),
        0 <= i < entries.len(),
        forall|j: int|
            0 <= j < entries.len() && j != i ==> password_of(#[trigger] entries[j]) != password_of(
                entries[i],
            ),
    ensures
        !reused(entries).contains(entries[i].uuid),
{
    lemma_reused_members(entries, entries[i].uuid);
}

/// A bucket as far as the first `n` entries fill it holds an identifier
/// exactly where one of them with that identifier is in the bucket.
proof fn lemma_bucket_upto_members(
    entries: Seq<PasswordDataView>,
    answers: Seq<AnswerView>,
    score: u8,
    n: int,
    uuid: Seq<char>,
)
    requires
        0 <= n <= entries.len(),
    ensures
        bucket_upto(entries, answers, score, n).contains(uuid) <==> exists|i: int|
            0 <= i < n && #[trigger] in_bucket(entries, answers, score, i) && entries[i].uuid
                == uuid,
    decreases n,
{
    if n > 0 {
        let rest = bucket_upto(entries, answers, score, n - 1);
        lemma_bucket_upto_members(entries, answers, score, n - 1, uuid);
        if in_bucket(entries, answers, score, n - 1) {
            lemma_push_contains(rest, entries[n - 1].uuid, uuid);
        }
    }
}

/// The bucket of a score holds an identifier exactly where an entry with
/// that identifier has a password that the answers score so.
pub proof fn lemma_bucket_members(
    entries: Seq<PasswordDataView>,
    answers: Seq<AnswerView>,
    score: u8,
    uuid: Seq<char>,
)
    ensures
        bucket(entries, answers, score).contains(uuid) <==> exists|i: int|
            0 <= i < entries.len() && #[trigger] in_bucket(entries, answers, score, i)
                && entries[i].uuid == uuid,
{
    lemma_bucket_upto_members(entries, answers, score, entries.len() as int, uuid);
}

/// Two entries with the same password, which is not empty, are in the same
/// bucket: where the answers give the password a score, the bucket of that
/// score holds both identifiers.
pub proof fn lemma_shared_password_shares_bucket(
    entries: Seq<PasswordDataView>,
    answers: Seq<AnswerView>,
    i: int,
    j: int,
    score: u8,
)
    requires
        0 <= i < entries.len(),
        0 <= j < entries.len(),
        password_of(entries[i]) is Some,
        password_of(entries[i]) == password_of(entries[j]),
    ensures
        in_bucket(entries, answers, score, i) <==> in_bucket(entries, answers, score, j),
        in_bucket(entries, answers, score, i) ==> bucket(entries, answers, score).contains(
            entries[i].uuid,
        ) && bucket(entries, answers, score).contains(entries[j].uuid),
{
    lemma_bucket_members(entries, answers, score, entries[i].uuid);
    lemma_bucket_members(entries, answers, score, entries[j].uuid);
    if in_bucket(entries, answers, score, i) {
        assert(in_bucket(entries, answers, score, j));
    }
}

/// Where identifiers are distinct, an entry is in no bucket but that of its
/// password's score: no other bucket holds its identifier, and an entry
/// whose password has no answer is in none.
pub proof fn lemma_one_bucket_each(
    entries: Seq<PasswordDataView>,
    answers: Seq<AnswerView>,
    i: int,
    score: u8,
)
    requires
        uuids_distinct(entries),
        0 <= i < entries.len(),
        !in_bucket(entries, answers, score, i),
    ensures
        !bucket(entries, answers, score).contains(entries[i].uuid),
{
    lemma_bucket_members(entries, answers, score, entries[i].uuid);
}

} // verus!
