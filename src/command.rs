//! The shell's command language: one command per line, words separated by
//! single spaces, the first word naming the command.
use vstd::prelude::*;
use vstd::utf8::encode_utf8;

verus! {

/// A parsed line. Keys and values are the bytes of their words.
#[derive(Debug, PartialEq, Eq)]
pub enum Command {
    Help,
    Exit,
    List,
    Insert(Vec<u8>, Vec<u8>),
    Get(Vec<u8>),
    Update(Vec<u8>, Vec<u8>),
    Delete(Vec<u8>),
    Invalid,
}

/// The model of a `Command`, with its words as byte sequences.
pub enum CommandModel {
    Help,
    Exit,
    List,
    Insert(Seq<u8>, Seq<u8>),
    Get(Seq<u8>),
    Update(Seq<u8>, Seq<u8>),
    Delete(Seq<u8>),
    Invalid,
}

impl View for Command {
    type V = CommandModel;

    open spec fn view(&self) -> CommandModel {
        match self {
            Command::Help => CommandModel::Help,
            Command::Exit => CommandModel::Exit,
            Command::List => CommandModel::List,
            Command::Insert(k, v) => CommandModel::Insert(k@, v@),
            Command::Get(k) => CommandModel::Get(k@),
            Command::Update(k, v) => CommandModel::Update(k@, v@),
            Command::Delete(k) => CommandModel::Delete(k@),
            Command::Invalid => CommandModel::Invalid,
        }
    }
}

pub const SPACE: u8 = 32;

/// The pieces of `b` between single spaces, empty pieces included: `n`
/// spaces give `n + 1` pieces.
pub open spec fn split_spaces(b: Seq<u8>) -> Seq<Seq<u8>>
    decreases b.len(),
{
    if b.len() == 0 {
        seq![Seq::<u8>::empty()]
    } else {
        let w = split_spaces(b.drop_last());
        if b.last() == SPACE {
            w.push(Seq::<u8>::empty())
        } else {
            w.update(w.len() - 1, w.last().push(b.last()))
        }
    }
}

pub open spec fn kw_help() -> Seq<u8> {
    seq![72u8, 69u8, 76u8, 80u8]
}

pub open spec fn kw_list() -> Seq<u8> {
    seq![76u8, 73u8, 83u8, 84u8]
}

pub open spec fn kw_exit() -> Seq<u8> {
    seq![69u8, 88u8, 73u8, 84u8]
}

pub open spec fn kw_insert() -> Seq<u8> {
    seq![73u8, 78u8, 83u8, 69u8, 82u8, 84u8]
}

pub open spec fn kw_get() -> Seq<u8> {
    seq![71u8, 69u8, 84u8]
}

pub open spec fn kw_update() -> Seq<u8> {
    seq![85u8, 80u8, 68u8, 65u8, 84u8, 69u8]
}

pub open spec fn kw_delete() -> Seq<u8> {
    seq![68u8, 69u8, 76u8, 69u8, 84u8, 69u8]
}

/// The command that the words `w` of a line spell. More than three words
/// is invalid; `HELP`, `LIST` and `EXIT` ignore any further words;
/// `INSERT` and `UPDATE` need a key and a value, `GET` and `DELETE` a key,
/// and take a third word as well (ignored) only where they need two.
pub open spec fn command_of(w: Seq<Seq<u8>>) -> CommandModel {
    if w.len() > 3 || w.len() == 0 {
        CommandModel::Invalid
    } else if w[0] == kw_help() {
        CommandModel::Help
    } else if w[0] == kw_list() {
        CommandModel::List
    } else if w[0] == kw_exit() {
        CommandModel::Exit
    } else if w[0] == kw_insert() {
        if w.len() < 3 {
            CommandModel::Invalid
        } else {
            CommandModel::Insert(w[1], w[2])
        }
    } else if w[0] == kw_get() {
        if w.len() < 2 {
            CommandModel::Invalid
        } else {
            CommandModel::Get(w[1])
        }
    } else if w[0] == kw_update() {
        if w.len() < 3 {
            CommandModel::Invalid
        } else {
            CommandModel::Update(w[1], w[2])
        }
    } else if w[0] == kw_delete() {
        if w.len() < 2 {
            CommandModel::Invalid
        } else {
            CommandModel::Delete(w[1])
        }
    } else {
        CommandModel::Invalid
    }
}

pub open spec fn words_view(w: Seq<Vec<u8>>) -> Seq<Seq<u8>> {
    w.map_values(|x: Vec<u8>| x@)
}

proof fn lemma_split_nonempty(b: Seq<u8>)
    ensures
        split_spaces(b).len() >= 1,
    decreases b.len(),
{
    if b.len() > 0 {
        lemma_split_nonempty(b.drop_last());
    }
}

/// Splits `b` at each space, as `split_spaces` says.
pub fn split_words(b: &[u8]) -> (r: Vec<Vec<u8>>)
    ensures
        words_view(r@) == split_spaces(b@),
{
    let mut words: Vec<Vec<u8>> = Vec::new();
    let mut cur: Vec<u8> = Vec::new();
    let mut i: usize = 0;
    assert(b@.subrange(0, 0) =~= Seq::<u8>::empty());
    assert(words_view(words@).push(cur@) =~= split_spaces(b@.subrange(0, 0)));
    while i < b.len()
        invariant
            0 <= i <= b@.len(),
            words_view(words@).push(cur@) == split_spaces(b@.subrange(0, i as int)),
        decreases b.len() - i,
    {
        let c = b[i];
        let ghost pre = b@.subrange(0, i as int);
        let ghost next = b@.subrange(0, i + 1);
        assert(next.drop_last() =~= pre);
        assert(next.last() == c);
        proof {
            lemma_split_nonempty(pre);
        }
        if c == SPACE {
            words.push(cur);
            cur = Vec::new();
            assert(words_view(words@).push(cur@) =~= split_spaces(next));
        } else {
            let ghost w0 = words@;
            cur.push(c);
            assert(words_view(w0) =~= words_view(words@));
            assert(words_view(words@).push(cur@) =~= split_spaces(next));
        }
        i += 1;
    }
    assert(b@.subrange(0, b@.len() as int) =~= b@);
    let ghost w0 = words@;
    words.push(cur);
    assert(words_view(words@) =~= words_view(w0).push(cur@));
    words
}

/// Whether `a` holds exactly the bytes of `b`.
fn same_bytes(a: &Vec<u8>, b: &[u8]) -> (r: bool)
    ensures
        r == (a@ == b@),
{
    if a.len() != b.len() {
        return false;
    }
    let mut i: usize = 0;
    while i < a.len()
        invariant
            a@.len() == b@.len(),
            0 <= i <= a@.len(),
            forall|j: int| 0 <= j < i ==> a@[j] == b@[j],
        decreases a.len() - i,
    {
        if a[i] != b[i] {
            return false;
        }
        i += 1;
    }
    assert(a@ =~= b@);
    true
}

/// The command spelt by the words of a line, as `command_of` says.
pub fn command_from_words(w: &Vec<Vec<u8>>) -> (c: Command)
    ensures
        c@ == command_of(words_view(w@)),
{
    let ghost wv = words_view(w@);
    if w.len() > 3 || w.len() == 0 {
        return Command::Invalid;
    }
    let first = &w[0];
    assert(wv[0] == first@);
    if same_bytes(first, &[72u8, 69u8, 76u8, 80u8]) {
        Command::Help
    } else if same_bytes(first, &[76u8, 73u8, 83u8, 84u8]) {
        Command::List
    } else if same_bytes(first, &[69u8, 88u8, 73u8, 84u8]) {
        Command::Exit
    } else if same_bytes(first, &[73u8, 78u8, 83u8, 69u8, 82u8, 84u8]) {
        if w.len() < 3 {
            Command::Invalid
        } else {
            Command::Insert(w[1].clone(), w[2].clone())
        }
    } else if same_bytes(first, &[71u8, 69u8, 84u8]) {
        if w.len() < 2 {
            Command::Invalid
        } else {
            Command::Get(w[1].clone())
        }
    } else if same_bytes(first, &[85u8, 80u8, 68u8, 65u8, 84u8, 69u8]) {
        if w.len() < 3 {
            Command::Invalid
        } else {
            Command::Update(w[1].clone(), w[2].clone())
        }
    } else if same_bytes(first, &[68u8, 69u8, 76u8, 69u8, 84u8, 69u8]) {
        if w.len() < 2 {
            Command::Invalid
        } else {
            Command::Delete(w[1].clone())
        }
    } else {
        Command::Invalid
    }
}

/// The characters with Unicode's White_Space property, which
/// `char::is_whitespace` tests.
pub open spec fn is_white_space(c: char) -> bool {
    ('\u{9}' <= c && c <= '\u{d}') || c == ' ' || c == '\u{85}' || c == '\u{a0}' || c
        == '\u{1680}' || ('\u{2000}' <= c && c <= '\u{200a}') || c == '\u{2028}' || c
        == '\u{2029}' || c == '\u{202f}' || c == '\u{205f}' || c == '\u{3000}'
}

/// `s` without its leading white space.
pub open spec fn trim_start(s: Seq<char>) -> Seq<char>
    decreases s.len(),
{
    if s.len() > 0 && is_white_space(s[0]) {
        trim_start(s.drop_first())
    } else {
        s
    }
}

/// `s` without its trailing white space.
pub open spec fn trim_end(s: Seq<char>) -> Seq<char>
    decreases s.len(),
{
    if s.len() > 0 && is_white_space(s.last()) {
        trim_end(s.drop_last())
    } else {
        s
    }
}

/// `s` without white space at either end.
pub open spec fn trimmed(s: Seq<char>) -> Seq<char> {
    trim_end(trim_start(s))
}

/// Relies on `str::trim`: the text with leading and trailing white space
/// (Unicode's White_Space property) removed.
#[verifier::external_body]
fn trim_text(s: &str) -> (r: &str)
    ensures
        r@ == trimmed(s@),
{
    s.trim()
}

/// The command on a line from which white space at both ends has been
/// removed: its bytes split at each space, read by `command_of`.
pub fn parse_trimmed(s: &str) -> (c: Command)
    ensures
        c@ == command_of(split_spaces(encode_utf8(s@))),
{
    let words = split_words(s.as_bytes());
    command_from_words(&words)
}

/// The command on a line as typed: white space at both ends is dropped,
/// then the rest is read as `parse_trimmed` reads it.
pub fn parse_input(input: &str) -> (c: Command)
    ensures
        c@ == command_of(split_spaces(encode_utf8(trimmed(input@)))),
{
    let t = trim_text(input);
    parse_trimmed(t)
}

} // verus!
