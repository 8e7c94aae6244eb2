//! Arguments as one parameter line, for a process that is started from a
//! single string and splits it by the rule of the Microsoft C runtime.
//!
//! The line is written so that the rule gives back the arguments it was made
//! of: same count, same order, every string unchanged.

use vstd::prelude::*;
use crate::text::{push_char, texts};

verus! {

/// `n` backslashes.
pub open spec fn backslashes(n: nat) -> Seq<char> {
    Seq::new(n, |i: int| '\\')
}

/// The character separates arguments where it stands outside quotes.
pub open spec fn is_blank(c: char) -> bool {
    c == ' ' || c == '\t'
}

/// The argument cannot stand bare: it is empty, or holds a space, a tab or a
/// double quote.
pub open spec fn needs_quotes(arg: Seq<char>) -> bool {
    arg.len() == 0 || exists|i: int|
        0 <= i < arg.len() && (is_blank(#[trigger] arg[i]) || arg[i] == '"')
}

/// What stands between the quotes for `arg`, where `run` backslashes stand
/// directly before it. A double quote gets a backslash before it; a run of
/// backslashes is doubled where a double quote follows it, be that one of
/// the argument or the closing quote, and stays as it is elsewhere.
pub open spec fn escaped(arg: Seq<char>, run: nat) -> Seq<char>
    decreases arg.len(),
{
    if arg.len() == 0 {
        backslashes(run)
    } else if arg[0] == '\\' {
        seq!['\\'] + escaped(arg.drop_first(), run + 1)
    } else if arg[0] == '"' {
        backslashes(run + 1) + seq!['"'] + escaped(arg.drop_first(), 0)
    } else {
        seq![arg[0]] + escaped(arg.drop_first(), 0)
    }
}

/// An argument as it stands in a parameter line: between double quotes and
/// escaped if it needs quotes, else as it is.
pub open spec fn quoted(arg: Seq<char>) -> Seq<char> {
    if needs_quotes(arg) {
        seq!['"'] + escaped(arg, 0) + seq!['"']
    } else {
        arg
    }
}

/// The arguments after the first: each after a space, as it stands in a line.
pub open spec fn following(args: Seq<Seq<char>>) -> Seq<char>
    decreases args.len(),
{
    if args.len() == 0 {
        Seq::empty()
    } else {
        seq![' '] + quoted(args[0]) + following(args.drop_first())
    }
}

/// The arguments as one line, a space between neighbours.
pub open spec fn parameter_line(args: Seq<Seq<char>>) -> Seq<char> {
    if args.len() == 0 {
        Seq::empty()
    } else {
        quoted(args[0]) + following(args.drop_first())
    }
}

/// The runtime's splitting rule, as a scan over what is left of the line.
/// `word` is the argument read so far, `pending` the backslashes seen since
/// its last other character, `done` the arguments completed.
///
/// Blanks outside quotes end an argument. Backslashes stand for themselves
/// unless a double quote follows them: then each pair stands for one, and a
/// backslash left over makes the quote a character of the argument. A quote
/// with no backslash left over opens or closes a quoted stretch, but for two
/// quotes in a row inside one, which stand for one quote character.
pub open spec fn scan(
    rest: Seq<char>,
    in_quotes: bool,
    in_arg: bool,
    pending: nat,
    word: Seq<char>,
    done: Seq<Seq<char>>,
) -> Seq<Seq<char>>
    decreases rest.len(),
{
    if rest.len() == 0 {
        if in_arg {
            done.push(word + backslashes(pending))
        } else {
            done
        }
    } else if rest[0] == '\\' {
        scan(rest.skip(1), in_quotes, true, pending + 1, word, done)
    } else if rest[0] == '"' {
        if pending % 2 == 1 {
            scan(
                rest.skip(1),
                in_quotes,
                true,
                0,
                word + backslashes(pending / 2) + seq!['"'],
                done,
            )
        } else if in_quotes && rest.len() > 1 && rest[1] == '"' {
            scan(rest.skip(2), true, true, 0, word + backslashes(pending / 2) + seq!['"'], done)
        } else {
            scan(rest.skip(1), !in_quotes, true, 0, word + backslashes(pending / 2), done)
        }
    } else if is_blank(rest[0]) && !in_quotes {
        if in_arg {
            scan(
                rest.skip(1),
                false,
                false,
                0,
                Seq::empty(),
                done.push(word + backslashes(pending)),
            )
        } else {
            scan(rest.skip(1), false, false, 0, Seq::empty(), done)
        }
    } else {
        scan(rest.skip(1), in_quotes, true, 0, (word + backslashes(pending)).push(rest[0]), done)
    }
}

/// The arguments that the runtime reads from a parameter line.
pub open spec fn split(line: Seq<char>) -> Seq<Seq<char>> {
    scan(line, false, false, 0, Seq::empty(), Seq::empty())
}

proof fn scan_backslashes(
    n: nat,
    tail: Seq<char>,
    in_quotes: bool,
    in_arg: bool,
    pending: nat,
    word: Seq<char>,
    done: Seq<Seq<char>>,
)
    ensures
        scan(backslashes(n) + tail, in_quotes, in_arg, pending, word, done) == scan(
            tail,
            in_quotes,
            in_arg || n > 0,
            pending + n,
            word,
            done,
        ),
    decreases n,
{
    let line = backslashes(n) + tail;
    if n == 0 {
        assert(line =~= tail);
    } else {
        assert(line[0] == '\\');
        assert(line.skip(1) =~= backslashes((n - 1) as nat) + tail);
        scan_backslashes((n - 1) as nat, tail, in_quotes, true, pending + 1, word, done);
    }
}

proof fn scan_escaped(
    arg: Seq<char>,
    run: nat,
    rest: Seq<char>,
    word: Seq<char>,
    done: Seq<Seq<char>>,
)
    requires
        rest.len() == 0 || rest[0] != '"',
    ensures
        scan(escaped(arg, run) + seq!['"'] + rest, true, true, run, word, done) == scan(
            rest,
            false,
            true,
            0,
            word + backslashes(run) + arg,
            done,
        ),
    decreases arg.len(),
{
    let line = escaped(arg, run) + seq!['"'] + rest;
    let close = seq!['"'] + rest;
    if arg.len() == 0 {
        assert(line =~= backslashes(run) + close);
        scan_backslashes(run, close, true, true, run, word, done);
        assert(close[0] == '"');
        assert(close.len() > 1 ==> close[1] == rest[0]);
        assert(close.skip(1) =~= rest);
        assert((run + run) % 2 == 0 && (run + run) / 2 == run);
        assert(word + backslashes(run) =~= word + backslashes(run) + arg);
    } else {
        let tail = arg.drop_first();
        if arg[0] == '\\' {
            let next = escaped(tail, run + 1) + seq!['"'] + rest;
            assert(line[0] == '\\');
            assert(line.skip(1) =~= next);
            scan_escaped(tail, run + 1, rest, word, done);
            assert(word + backslashes(run + 1) + tail =~= word + backslashes(run) + arg);
        } else if arg[0] == '"' {
            let next = escaped(tail, 0) + seq!['"'] + rest;
            let quote = seq!['"'] + next;
            assert(line =~= backslashes(run + 1) + quote);
            scan_backslashes(run + 1, quote, true, true, run, word, done);
            assert(quote[0] == '"');
            assert(quote.skip(1) =~= next);
            assert((run + (run + 1)) % 2 == 1 && (run + (run + 1)) / 2 == run);
            let read = word + backslashes(run) + seq!['"'];
            scan_escaped(tail, 0, rest, read, done);
            assert(read + backslashes(0) + tail =~= word + backslashes(run) + arg);
        } else {
            let next = escaped(tail, 0) + seq!['"'] + rest;
            assert(line[0] == arg[0]);
            assert(line.skip(1) =~= next);
            let read = (word + backslashes(run)).push(arg[0]);
            scan_escaped(tail, 0, rest, read, done);
            assert(read + backslashes(0) + tail =~= word + backslashes(run) + arg);
        }
    }
}

proof fn scan_bare(
    arg: Seq<char>,
    rest: Seq<char>,
    in_arg: bool,
    pending: nat,
    word: Seq<char>,
    done: Seq<Seq<char>>,
)
    requires
        forall|i: int| 0 <= i < arg.len() ==> !is_blank(#[trigger] arg[i]) && arg[i] != '"',
        rest.len() == 0 || is_blank(rest[0]),
    ensures
        scan(arg + rest, false, in_arg, pending, word, done) == scan(
            rest,
            false,
            in_arg || arg.len() > 0,
            0,
            word + backslashes(pending) + arg,
            done,
        ),
    decreases arg.len(),
{
    let line = arg + rest;
    if arg.len() == 0 {
        assert(line =~= rest);
        assert(word + backslashes(pending) + arg + backslashes(0) =~= word + backslashes(pending));
    } else {
        let tail = arg.drop_first();
        assert(line[0] == arg[0]);
        assert(line.skip(1) =~= tail + rest);
        assert forall|i: int| 0 <= i < tail.len() implies !is_blank(#[trigger] tail[i]) && tail[i]
            != '"' by {
            assert(tail[i] == arg[i + 1]);
        }
        if arg[0] == '\\' {
            scan_bare(tail, rest, true, pending + 1, word, done);
            assert(word + backslashes(pending + 1) + tail =~= word + backslashes(pending) + arg);
        } else {
            let read = (word + backslashes(pending)).push(arg[0]);
            scan_bare(tail, rest, true, 0, read, done);
            assert(read + backslashes(0) + tail =~= word + backslashes(pending) + arg);
        }
    }
}

proof fn scan_quoted(arg: Seq<char>, rest: Seq<char>, done: Seq<Seq<char>>)
    requires
        rest.len() == 0 || rest[0] == ' ',
    ensures
        scan(quoted(arg) + rest, false, false, 0, Seq::empty(), done) == scan(
            rest,
            false,
            true,
            0,
            arg,
            done,
        ),
{
    let none = Seq::<char>::empty();
    if needs_quotes(arg) {
        let line = quoted(arg) + rest;
        let inner = escaped(arg, 0) + seq!['"'] + rest;
        assert(line[0] == '"');
        assert(line.skip(1) =~= inner);
        assert(none + backslashes(0) =~= none);
        scan_escaped(arg, 0, rest, none, done);
        assert(none + backslashes(0) + arg =~= arg);
    } else {
        scan_bare(arg, rest, false, 0, none, done);
        assert(none + backslashes(0) + arg =~= arg);
    }
}

proof fn scan_following(args: Seq<Seq<char>>, word: Seq<char>, done: Seq<Seq<char>>)
    ensures
        scan(following(args), false, true, 0, word, done) == done.push(word) + args,
    decreases args.len(),
{
    assert(word + backslashes(0) =~= word);
    if args.len() == 0 {
        assert(done.push(word) + args =~= done.push(word));
    } else {
        let line = following(args);
        let tail = args.drop_first();
        assert(line[0] == ' ');
        assert(line.skip(1) =~= quoted(args[0]) + following(tail));
        scan_quoted(args[0], following(tail), done.push(word));
        scan_following(tail, args[0], done.push(word));
        assert(done.push(word).push(args[0]) + tail =~= done.push(word) + args);
    }
}

/// The relaunched process sees the same arguments: the runtime's rule
/// splits the line made of `args` into exactly `args`.
pub proof fn split_gives_back(args: Seq<Seq<char>>)
    ensures
        split(parameter_line(args)) == args,
{
    let none = Seq::<Seq<char>>::empty();
    if args.len() == 0 {
        assert(args =~= none);
    } else {
        let tail = args.drop_first();
        scan_quoted(args[0], following(tail), none);
        scan_following(tail, args[0], none);
        assert(none.push(args[0]) + tail =~= args);
    }
}

fn needs_quoting(arg: &str) -> (r: bool)
    ensures
        r == needs_quotes(arg@),
{
    let n: usize = arg.unicode_len();
    if n == 0 {
        return true;
    }
    let mut i: usize = 0;
    while i < n
        invariant
            n == arg@.len(),
            i <= n,
            forall|k: int| 0 <= k < i ==> !is_blank(#[trigger] arg@[k]) && arg@[k] != '"',
        decreases n - i,
    {
        let c = arg.get_char(i);
        if c == ' ' || c == '\t' || c == '"' {
            assert(is_blank(arg@[i as int]) || arg@[i as int] == '"');
            return true;
        }
        i += 1;
    }
    false
}

fn push_backslashes(out: &mut String, n: usize)
    ensures
        final(out)@ == old(out)@ + backslashes(n as nat),
{
    let mut i: usize = 0;
    assert(out@ =~= old(out)@ + backslashes(0));
    while i < n
        invariant
            i <= n,
            out@ == old(out)@ + backslashes(i as nat),
        decreases n - i,
    {
        push_char(out, '\\');
        i += 1;
        assert(out@ =~= old(out)@ + backslashes(i as nat));
    }
}

/// The argument as it stands in a parameter line.
pub fn quote(arg: &str) -> (r: String)
    ensures
        r@ == quoted(arg@),
{
    if !needs_quoting(arg) {
        return String::from_str(arg);
    }
    let n: usize = arg.unicode_len();
    let mut out = String::new();
    push_char(&mut out, '"');
    let mut run: usize = 0;
    let mut i: usize = 0;
    assert(arg@.subrange(0, n as int) =~= arg@);
    while i < n
        invariant
            n == arg@.len(),
            i <= n,
            run <= i,
            out@ + escaped(arg@.subrange(i as int, n as int), run as nat) == seq!['"'] + escaped(
                arg@,
                0,
            ),
        decreases n - i,
    {
        let c = arg.get_char(i);
        let ghost left = arg@.subrange(i as int, n as int);
        let ghost before = out@;
        assert(left[0] == c);
        assert(left.drop_first() =~= arg@.subrange(i + 1, n as int));
        if c == '\\' {
            push_char(&mut out, c);
            run += 1;
            assert(out@ + escaped(left.drop_first(), run as nat) =~= before + escaped(
                left,
                (run - 1) as nat,
            ));
        } else if c == '"' {
            push_backslashes(&mut out, run + 1);
            push_char(&mut out, '"');
            assert(out@ + escaped(left.drop_first(), 0) =~= before + escaped(left, run as nat));
            run = 0;
        } else {
            push_char(&mut out, c);
            assert(out@ + escaped(left.drop_first(), 0) =~= before + escaped(left, run as nat));
            run = 0;
        }
        i += 1;
    }
    let ghost body = out@;
    push_backslashes(&mut out, run);
    push_char(&mut out, '"');
    assert(out@ =~= body + escaped(arg@.subrange(n as int, n as int), run as nat) + seq!['"']);
    assert(out@ =~= seq!['"'] + escaped(arg@, 0) + seq!['"']);
    out
}

/// The arguments as one parameter line.
pub fn parameters(args: &Vec<String>) -> (r: String)
    ensures
        r@ == parameter_line(texts(args@)),
{
    if args.len() == 0 {
        return String::new();
    }
    let ghost all = texts(args@);
    let mut line = quote(args[0].as_str());
    let mut i: usize = 1;
    assert(all.subrange(1, all.len() as int) =~= all.drop_first());
    while i < args.len()
        invariant
            1 <= i <= args.len(),
            all == texts(args@),
            line@ + following(all.subrange(i as int, all.len() as int)) == parameter_line(all),
        decreases args.len() - i,
    {
        let ghost left = all.subrange(i as int, all.len() as int);
        let ghost before = line@;
        assert(left[0] == args@[i as int]@);
        assert(left.drop_first() =~= all.subrange(i + 1, all.len() as int));
        line.append(" ");
        line.append(quote(args[i].as_str()).as_str());
        proof {
            reveal_strlit(" ");
            assert(" "@ =~= seq![' ']);
            assert(line@ + following(left.drop_first()) =~= before + following(left));
        }
        i += 1;
    }
    assert(line@ + following(all.subrange(i as int, all.len() as int)) =~= line@);
    line
}

} // verus!
