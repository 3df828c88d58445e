use crate::string_tests::is_line_break;
use crate::text::{after, before, find, find_char, lemma_find, to_chars};
use vstd::prelude::*;

verus! {

/// One decoded protocol line. The fields borrow from the line they were cut
/// from.
pub struct IrcEvent<'a> {
    /// The nickname part of the prefix: what stands before its first `!`.
    pub sender: &'a str,
    /// Who the line comes from; empty where the line names nobody.
    pub prefix: &'a str,
    /// The command name or three-digit numeric reply.
    pub cmd: &'a str,
    /// The middle parameters in order, then the trailing one if there is one.
    pub args: Vec<&'a str>,
}

/// What an event holds, as plain text.
pub ghost struct EventView {
    pub sender: Seq<char>,
    pub prefix: Seq<char>,
    pub cmd: Seq<char>,
    pub args: Seq<Seq<char>>,
}

/// The texts that a list of string slices stands for.
pub open spec fn texts(v: Seq<&str>) -> Seq<Seq<char>> {
    Seq::new(v.len(), |i: int| v[i]@)
}

impl<'a> View for IrcEvent<'a> {
    type V = EventView;

    open spec fn view(&self) -> EventView {
        EventView {
            sender: self.sender@,
            prefix: self.prefix@,
            cmd: self.cmd@,
            args: texts(self.args@),
        }
    }
}

/// A line without the carriage returns and line feeds at its end.
pub open spec fn trim_line_end(s: Seq<char>) -> Seq<char>
    decreases s.len(),
{
    if s.len() > 0 && is_line_break(s.last()) {
        trim_line_end(s.drop_last())
    } else {
        s
    }
}

/// The words of a text: its maximal runs of characters other than the
/// space, in order. None of them is empty.
pub open spec fn words(s: Seq<char>) -> Seq<Seq<char>>
    decreases s.len(),
{
    if s.len() == 0 {
        Seq::empty()
    } else if s[0] == ' ' {
        words(s.skip(1))
    } else {
        proof {
            lemma_find(s, ' ');
        }
        seq![before(s, ' ')] + words(s.skip(find(s, ' ') as int))
    }
}

/// Whether a line, stripped of its line end, opens with the `:` that
/// announces a prefix.
pub open spec fn has_prefix(line: Seq<char>) -> bool {
    trim_line_end(line).len() > 0 && trim_line_end(line)[0] == ':'
}

/// The line without its line end and without the `:` that announces a
/// prefix.
pub open spec fn body(line: Seq<char>) -> Seq<char> {
    if has_prefix(line) {
        trim_line_end(line).skip(1)
    } else {
        trim_line_end(line)
    }
}

/// The part of the body that is split on spaces: all that stands in front
/// of the first `:` of the body.
pub open spec fn head(line: Seq<char>) -> Seq<char> {
    before(body(line), ':')
}

/// The trailing parameter: all that stands behind the first `:` of the
/// body, taken as it is. `None` where the body holds no `:`.
pub open spec fn trailing(line: Seq<char>) -> Option<Seq<char>> {
    after(body(line), ':')
}

/// The prefix of a line: where one is announced, the head up to its first
/// space; empty otherwise.
pub open spec fn prefix_of(line: Seq<char>) -> Seq<char> {
    if has_prefix(line) {
        before(head(line), ' ')
    } else {
        Seq::empty()
    }
}

/// The command and the middle parameters: the words of the head behind the
/// prefix.
pub open spec fn params(line: Seq<char>) -> Seq<Seq<char>> {
    words(head(line).skip(prefix_of(line).len() as int))
}

/// The event that a line stands for, or `None` for a line without a
/// command.
pub open spec fn decode(line: Seq<char>) -> Option<EventView> {
    if params(line).len() == 0 {
        None
    } else {
        Some(
            EventView {
                sender: before(prefix_of(line), '!'),
                prefix: prefix_of(line),
                cmd: params(line)[0],
                args: params(line).skip(1) + match trailing(line) {
                    Some(t) => seq![t],
                    None => Seq::empty(),
                },
            },
        )
    }
}

/// A word: at least one character, and no space among them.
pub open spec fn is_word(w: Seq<char>) -> bool {
    &&& w.len() > 0
    &&& forall|i: int| 0 <= i < w.len() ==> #[trigger] w[i] != ' '
}

/// Each element of `words(s)` is a word, and holds no character that `s`
/// does not hold.
pub proof fn lemma_words(s: Seq<char>)
    ensures
        forall|k: int| 0 <= k < words(s).len() ==> is_word(#[trigger] words(s)[k]),
        forall|k: int, c: char|
            0 <= k < words(s).len() && !s.contains(c) ==> !(#[trigger] words(s)[k].contains(c)),
    decreases s.len(),
{
    if s.len() == 0 {
    } else if s[0] == ' ' {
        let tail = s.skip(1);
        lemma_words(tail);
        assert(words(s) == words(tail));
        assert forall|k: int, c: char|
            0 <= k < words(s).len() && !s.contains(c) implies !(#[trigger] words(s)[k].contains(c)) by {
            lemma_part_holds_less(s, tail, 1, c);
            assert(!words(tail)[k].contains(c));
        }
    } else {
        lemma_find(s, ' ');
        let n = find(s, ' ') as int;
        let first = before(s, ' ');
        let tail = s.skip(n);
        lemma_words(tail);
        assert(is_word(first));
        assert forall|k: int| 0 <= k < words(s).len() implies is_word(#[trigger] words(s)[k]) by {
            if k > 0 {
                assert(words(s)[k] == words(tail)[k - 1]);
            }
        }
        assert forall|k: int, c: char|
            0 <= k < words(s).len() && !s.contains(c) implies !(#[trigger] words(s)[k].contains(c)) by {
            if k > 0 {
                assert(words(s)[k] == words(tail)[k - 1]);
                lemma_part_holds_less(s, tail, n, c);
            } else {
                if first.contains(c) {
                    let j = choose|j: int| 0 <= j < first.len() && first[j] == c;
                    assert(s[j] == c);
                }
            }
        }
    }
}

/// A character that `s` does not hold is not held by what is left of `s`
/// after skipping `n` characters either.
proof fn lemma_part_holds_less(s: Seq<char>, tail: Seq<char>, n: int, c: char)
    requires
        0 <= n <= s.len(),
        tail == s.skip(n),
        !s.contains(c),
    ensures
        !tail.contains(c),
{
    if tail.contains(c) {
        let j = choose|j: int| 0 <= j < tail.len() && tail[j] == c;
        assert(s[j + n] == c);
    }
}

/// The shape of every decoded event: the command is a word without `:`,
/// the prefix holds neither space nor `:`, the sender is the prefix up to
/// its first `!`, and the arguments are the middle parameters, each a word
/// without `:`, followed by the trailing parameter where the line has one.
pub proof fn lemma_decode_shape(line: Seq<char>)
    requires
        decode(line) is Some,
    ensures
        ({
            let ev = decode(line)->0;
            let middle = params(line).skip(1);
            &&& is_word(ev.cmd) && !ev.cmd.contains(':')
            &&& !ev.prefix.contains(' ') && !ev.prefix.contains(':')
            &&& ev.sender == before(ev.prefix, '!') && !ev.sender.contains('!')
            &&& forall|k: int|
                0 <= k < middle.len() ==> is_word(#[trigger] middle[k]) && !middle[k].contains(':')
            &&& match trailing(line) {
                Some(t) => ev.args == middle.push(t),
                None => ev.args == middle,
            }
        }),
{
    let ev = decode(line)->0;
    let h = head(line);
    let rest = h.skip(prefix_of(line).len() as int);
    let middle = params(line).skip(1);
    lemma_find(body(line), ':');
    lemma_find(h, ' ');
    lemma_find(ev.prefix, '!');
    assert(!h.contains(':'));
    assert(!rest.contains(':')) by {
        if has_prefix(line) {
            lemma_part_holds_less(h, rest, prefix_of(line).len() as int, ':');
        } else {
            assert(rest == h);
        }
    }
    lemma_words(rest);
    assert(is_word(params(line)[0]));
    assert forall|k: int| 0 <= k < middle.len() implies is_word(#[trigger] middle[k])
        && !middle[k].contains(':') by {
        assert(middle[k] == params(line)[k + 1]);
    }
    match trailing(line) {
        Some(t) => {
            assert(middle + seq![t] == middle.push(t));
        },
        None => {
            assert(middle + Seq::<Seq<char>>::empty() == middle);
        },
    }
}

/// A line that holds no `:` behind its prefix marker has no trailing
/// parameter: every argument of its event is a word.
pub proof fn lemma_args_without_trailing(line: Seq<char>)
    requires
        decode(line) is Some,
        !body(line).contains(':'),
    ensures
        trailing(line) is None,
        decode(line)->0.args == params(line).skip(1),
        forall|k: int|
            0 <= k < decode(line)->0.args.len() ==> is_word(#[trigger] decode(line)->0.args[k]),
{
    lemma_find(body(line), ':');
    lemma_decode_shape(line);
}

/// Text that can be decoded as one protocol line.
pub trait IrcLine {
    /// The characters of the line.
    spec fn line(&self) -> Seq<char>;

    /// Decodes the line. The result is `None` exactly where the line holds
    /// no command.
    fn decode_irc_event<'a>(&'a self) -> (ev: Option<IrcEvent<'a>>)
        ensures
            match ev {
                Some(e) => decode(self.line()) == Some(e@),
                None => decode(self.line()) is None,
            },
    ;
}

/// The length of the line without the line breaks at its end.
fn line_end(chars: &Vec<char>) -> (end: usize)
    ensures
        end <= chars.len(),
        chars@.take(end as int) == trim_line_end(chars@),
{
    let mut end: usize = chars.len();
    assert(chars@.take(end as int) == chars@);
    while end > 0 && (chars[end - 1] == '\r' || chars[end - 1] == '\n')
        invariant
            end <= chars.len(),
            trim_line_end(chars@.take(end as int)) == trim_line_end(chars@),
        decreases end,
    {
        assert(chars@.take(end as int).drop_last() == chars@.take(end - 1));
        end -= 1;
    }
    end
}

/// Cuts the words out of `line[from..to]`.
fn split_words<'a>(line: &'a str, chars: &Vec<char>, from: usize, to: usize) -> (out: Vec<&'a str>)
    requires
        chars@ == line@,
        from <= to <= chars.len(),
    ensures
        texts(out@) == words(line@.subrange(from as int, to as int)),
{
    let mut out: Vec<&'a str> = Vec::new();
    let mut i: usize = from;
    assert(texts(out@) + words(line@.subrange(i as int, to as int)) == words(
        line@.subrange(from as int, to as int),
    ));
    while i < to
        invariant
            chars@ == line@,
            from <= i <= to <= chars.len(),
            texts(out@) + words(line@.subrange(i as int, to as int)) == words(
                line@.subrange(from as int, to as int),
            ),
        decreases to - i,
    {
        let ghost rest = line@.subrange(i as int, to as int);
        if chars[i] == ' ' {
            assert(rest.skip(1) == line@.subrange(i + 1, to as int));
            i += 1;
        } else {
            let j = find_char(chars, i, to, ' ');
            let word = line.substring_char(i, j);
            proof {
                assert(rest.take(j - i) == line@.subrange(i as int, j as int));
                assert(rest.skip(j - i) == line@.subrange(j as int, to as int));
                assert(texts(out@.push(word)) == texts(out@).push(word@));
                assert(texts(out@).push(word@) + words(rest.skip(j - i)) == texts(out@) + (
                seq![word@] + words(rest.skip(j - i))));
            }
            out.push(word);
            i = j;
        }
    }
    assert(line@.subrange(to as int, to as int).len() == 0);
    assert(texts(out@) + Seq::<Seq<char>>::empty() == texts(out@));
    out
}

impl IrcLine for str {
    open spec fn line(&self) -> Seq<char> {
        self@
    }

    fn decode_irc_event<'a>(&'a self) -> (ev: Option<IrcEvent<'a>>) {
        let chars = to_chars(self);
        let end = line_end(&chars);
        let marked = end > 0 && chars[0] == ':';
        let start: usize = if marked { 1 } else { 0 };
        let colon = find_char(&chars, start, end, ':');
        let gap = if marked { find_char(&chars, start, colon, ' ') } else { start };
        proof {
            assert(marked == has_prefix(self@));
            assert(body(self@) == self@.subrange(start as int, end as int));
            assert(head(self@) == self@.subrange(start as int, colon as int));
            assert(prefix_of(self@) == self@.subrange(start as int, gap as int));
            assert(head(self@).skip(prefix_of(self@).len() as int) == self@.subrange(
                gap as int,
                colon as int,
            ));
        }
        let mut args = split_words(self, &chars, gap, colon);
        if args.len() == 0 {
            return None;
        }
        let ghost all = args@;
        let cmd = args.remove(0);
        assert(texts(args@) == texts(all).skip(1));
        assert(cmd@ == texts(all)[0]);
        if colon < end {
            let last = self.substring_char(colon + 1, end);
            proof {
                assert(trailing(self@) == Some(last@)) by {
                    assert(body(self@).skip(colon - start + 1) == self@.subrange(
                        colon + 1,
                        end as int,
                    ));
                }
                assert(texts(args@.push(last)) == texts(args@) + seq![last@]);
            }
            args.push(last);
        } else {
            assert(texts(args@) + Seq::<Seq<char>>::empty() == texts(args@));
        }
        let prefix = self.substring_char(start, gap);
        let bang = find_char(&chars, start, gap, '!');
        let sender = self.substring_char(start, bang);
        assert(sender@ == before(prefix@, '!')) by {
            assert(prefix@.take(bang - start) == self@.subrange(start as int, bang as int));
            assert(self@.subrange(start as int, gap as int) == chars@.subrange(
                start as int,
                gap as int,
            ));
        }
        Some(IrcEvent { sender, prefix, cmd, args })
    }
}

} // verus!
