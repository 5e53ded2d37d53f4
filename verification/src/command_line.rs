//! The command line of the process to be launched.
//!
//! Windows hands a process one string, which the C runtime of the process
//! splits into arguments again.  An argument survives that only if it is
//! quoted the way the runtime expects: an argument with blanks or quotes in
//! it goes between quotes, a quote inside gets a backslash, and backslashes
//! are doubled where they run up to a quote, and only there.

use vstd::prelude::*;
use vstd::std_specs::iter::IteratorSpec;

verus! {

/// The double quote, as a unit of UTF-16.
pub const QUOTE: u16 = 0x22;

/// The backslash, as a unit of UTF-16.
pub const BACKSLASH: u16 = 0x5c;

/// The blank, as a unit of UTF-16.
pub const BLANK: u16 = 0x20;

/// The characters that force an argument between quotes.
pub open spec fn is_special(c: char) -> bool {
    c == ' ' || c == '\t' || c == '\n' || c == '\u{2B7F}' || c == '"'
}

/// Whether an argument has to go between quotes.
pub open spec fn needs_quotes(arg: Seq<char>) -> bool {
    exists|i: int| 0 <= i < arg.len() && is_special(#[trigger] arg[i])
}

/// A character in UTF-16: one unit for a character of the basic plane, a
/// pair of surrogates for any other.
pub open spec fn utf16(c: char) -> Seq<u16> {
    let code = c as u32;
    if code < 0x10000 {
        seq![code as u16]
    } else {
        seq![
            (0xD800 + (code - 0x10000) / 0x400) as u16,
            (0xDC00 + (code - 0x10000) % 0x400) as u16,
        ]
    }
}

/// A string in UTF-16.
pub open spec fn utf16_all(s: Seq<char>) -> Seq<u16>
    decreases s.len(),
{
    if s.len() == 0 {
        Seq::empty()
    } else {
        utf16(s[0]) + utf16_all(s.drop_first())
    }
}

/// A run of backslashes.
pub open spec fn backslashes(count: nat) -> Seq<u16> {
    Seq::new(count, |i: int| BACKSLASH)
}

/// What stands between the quotes for the rest of an argument, when
/// `pending` backslashes have been read and not yet written.
///
/// Backslashes are held back until it is known what follows them.  Before a
/// quote, and at the end, where the closing quote follows, each is doubled;
/// the quote itself gets one more.  Before anything else they stand as they
/// are.
pub open spec fn escaped(rest: Seq<char>, pending: nat) -> Seq<u16>
    decreases rest.len(),
{
    if rest.len() == 0 {
        backslashes(2 * pending)
    } else if rest[0] == '\\' {
        escaped(rest.drop_first(), pending + 1)
    } else if rest[0] == '"' {
        backslashes(2 * pending + 1) + seq![QUOTE] + escaped(rest.drop_first(), 0)
    } else {
        backslashes(pending) + utf16(rest[0]) + escaped(rest.drop_first(), 0)
    }
}

/// One argument as it stands in the command line.
pub open spec fn argument(arg: Seq<char>) -> Seq<u16> {
    if needs_quotes(arg) {
        seq![QUOTE] + escaped(arg, 0) + seq![QUOTE]
    } else {
        utf16_all(arg)
    }
}

/// The arguments in their order, with one blank between neighbours.
pub open spec fn joined(args: Seq<Seq<char>>) -> Seq<u16>
    decreases args.len(),
{
    if args.len() == 0 {
        Seq::empty()
    } else if args.len() == 1 {
        argument(args[0])
    } else {
        argument(args[0]) + seq![BLANK] + joined(args.drop_first())
    }
}

/// The views of a run of strings.
pub open spec fn texts(args: Seq<String>) -> Seq<Seq<char>> {
    Seq::new(args.len(), |i: int| args[i]@)
}

/// The command line: the arguments, and a zero at the end.
pub open spec fn command_line(args: Seq<Seq<char>>) -> Seq<u16> {
    joined(args) + seq![0u16]
}

fn push_utf16(out: &mut Vec<u16>, c: char)
    ensures
        final(out)@ == old(out)@ + utf16(c),
{
    let code = c as u32;
    if code < 0x10000 {
        out.push(code as u16);
        assert(out@ =~= old(out)@ + utf16(c));
    } else {
        let rest = code - 0x10000;
        let high = 0xD800 + rest / 0x400;
        let low = 0xDC00 + rest % 0x400;
        out.push(high as u16);
        out.push(low as u16);
        assert(out@ =~= old(out)@ + utf16(c));
    }
}

fn push_backslashes(out: &mut Vec<u16>, count: usize)
    ensures
        final(out)@ == old(out)@ + backslashes(count as nat),
{
    let mut i: usize = 0;
    while i < count
        invariant
            i <= count,
            out@ == old(out)@ + backslashes(i as nat),
        decreases count - i,
    {
        out.push(BACKSLASH);
        i += 1;
        assert(out@ =~= old(out)@ + backslashes(i as nat));
    }
}

fn has_special(arg: &str) -> (found: bool)
    ensures
        found == needs_quotes(arg@),
{
    let mut it = arg.chars();
    let ghost mut seen: int = 0;
    loop
        invariant
            0 <= seen <= arg@.len(),
            it.remaining() == arg@.skip(seen),
            forall|j: int| 0 <= j < seen ==> !is_special(#[trigger] arg@[j]),
        decreases arg@.len() - seen,
    {
        match it.next() {
            Some(c) => {
                if c == ' ' || c == '\t' || c == '\n' || c == '\u{2B7F}' || c == '"' {
                    return true;
                }
                proof {
                    assert(arg@.skip(seen).drop_first() =~= arg@.skip(seen + 1));
                    seen = seen + 1;
                }
            },
            None => {
                return false;
            },
        }
    }
}

fn push_plain(out: &mut Vec<u16>, arg: &str)
    ensures
        final(out)@ == old(out)@ + utf16_all(arg@),
{
    let mut it = arg.chars();
    let ghost mut seen: int = 0;
    let ghost mut written: Seq<u16> = Seq::empty();
    assert(out@ =~= old(out)@ + written);
    assert(arg@.skip(0) =~= arg@);
    loop
        invariant
            0 <= seen <= arg@.len(),
            it.remaining() == arg@.skip(seen),
            out@ == old(out)@ + written,
            written + utf16_all(arg@.skip(seen)) == utf16_all(arg@),
        decreases arg@.len() - seen,
    {
        match it.next() {
            Some(c) => {
                push_utf16(out, c);
                proof {
                    assert(arg@.skip(seen).drop_first() =~= arg@.skip(seen + 1));
                    assert(written + utf16(c) + utf16_all(arg@.skip(seen + 1)) =~= written + (utf16(
                        c,
                    ) + utf16_all(arg@.skip(seen + 1))));
                    written = written + utf16(c);
                    seen = seen + 1;
                    assert(out@ =~= old(out)@ + written);
                }
            },
            None => {
                assert(written =~= utf16_all(arg@));
                return ;
            },
        }
    }
}

fn push_escaped(out: &mut Vec<u16>, arg: &str)
    ensures
        final(out)@ == old(out)@ + escaped(arg@, 0),
{
    let mut it = arg.chars();
    // A run of backslashes is written once as it is read.  Where the run
    // began is remembered, so that the run can be doubled if it turns out to
    // end at a quote or at the end.
    let mut run_start: usize = out.len();
    let ghost mut seen: int = 0;
    let ghost mut written: Seq<u16> = Seq::empty();
    assert(out@ =~= old(out)@ + written + backslashes(0));
    assert(arg@.skip(0) =~= arg@);
    loop
        invariant
            0 <= seen <= arg@.len(),
            it.remaining() == arg@.skip(seen),
            run_start <= out@.len(),
            out@ == old(out)@ + written + backslashes((out@.len() - run_start) as nat),
            written + escaped(arg@.skip(seen), (out@.len() - run_start) as nat) == escaped(
                arg@,
                0,
            ),
        decreases arg@.len() - seen,
    {
        let ghost rest = arg@.skip(seen);
        let ghost pending = (out@.len() - run_start) as nat;
        match it.next() {
            Some(c) => {
                assert(rest.drop_first() =~= arg@.skip(seen + 1));
                if c == '\\' {
                    out.push(BACKSLASH);
                    assert(backslashes(pending).push(BACKSLASH) =~= backslashes(pending + 1));
                    assert(out@ =~= old(out)@ + written + backslashes(pending + 1));
                } else if c == '"' {
                    push_backslashes(out, out.len() - run_start);
                    out.push(BACKSLASH);
                    out.push(QUOTE);
                    run_start = out.len();
                    proof {
                        let emitted = backslashes(2 * pending + 1) + seq![QUOTE];
                        assert(backslashes(pending) + backslashes(pending) + seq![BACKSLASH]
                            =~= backslashes(2 * pending + 1));
                        assert(out@ =~= old(out)@ + (written + emitted) + backslashes(0));
                        assert((written + emitted) + escaped(arg@.skip(seen + 1), 0) =~= written + (
                        emitted + escaped(arg@.skip(seen + 1), 0)));
                        written = written + emitted;
                    }
                } else {
                    push_utf16(out, c);
                    run_start = out.len();
                    proof {
                        let emitted = backslashes(pending) + utf16(c);
                        assert(out@ =~= old(out)@ + (written + emitted) + backslashes(0));
                        assert((written + emitted) + escaped(arg@.skip(seen + 1), 0) =~= written + (
                        emitted + escaped(arg@.skip(seen + 1), 0)));
                        written = written + emitted;
                    }
                }
                proof {
                    seen = seen + 1;
                }
            },
            None => {
                push_backslashes(out, out.len() - run_start);
                proof {
                    assert(backslashes(pending) + backslashes(pending) =~= backslashes(
                        2 * pending,
                    ));
                    assert(out@ =~= old(out)@ + (written + backslashes(2 * pending)));
                }
                return ;
            },
        }
    }
}

fn push_argument(out: &mut Vec<u16>, arg: &str)
    ensures
        final(out)@ == old(out)@ + argument(arg@),
{
    if !has_special(arg) {
        push_plain(out, arg);
    } else {
        out.push(QUOTE);
        push_escaped(out, arg);
        out.push(QUOTE);
        assert(out@ =~= old(out)@ + (seq![QUOTE] + escaped(arg@, 0) + seq![QUOTE]));
    }
}

/// Builds the command line for a program and its arguments, in UTF-16 and
/// ending in a zero.
pub fn construct_command_line(args: &Vec<String>) -> (cmd_line: Vec<u16>)
    ensures
        cmd_line@ == command_line(texts(args@)),
{
    let mut cmd_line: Vec<u16> = Vec::new();
    let ghost all = texts(args@);
    let mut idx: usize = 0;
    assert(all.skip(0) =~= all);
    while idx < args.len()
        invariant
            idx <= args.len(),
            all == texts(args@),
            cmd_line@ + joined(all.skip(idx as int)) == joined(all),
        decreases args.len() - idx,
    {
        let ghost before = cmd_line@;
        let ghost rest = all.skip(idx as int);
        assert(rest.drop_first() =~= all.skip(idx + 1));
        push_argument(&mut cmd_line, args[idx].as_str());
        if idx < args.len() - 1 {
            cmd_line.push(BLANK);
            assert(cmd_line@ + joined(all.skip(idx + 1)) =~= before + (argument(rest[0]) + seq![
                BLANK,
            ] + joined(rest.drop_first())));
        } else {
            assert(joined(all.skip(idx + 1)) =~= Seq::<u16>::empty());
            assert(cmd_line@ + joined(all.skip(idx + 1)) =~= before + argument(rest[0]));
        }
        idx += 1;
    }
    assert(joined(all.skip(idx as int)) =~= Seq::<u16>::empty());
    assert(cmd_line@ =~= joined(all));
    cmd_line.push(0);
    cmd_line
}

} // verus!
