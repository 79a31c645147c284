//! How deep a metadata block can nest, told from its characters alone.
//!
//! The estimate errs on the high side only. It rests on how a YAML text is
//! read:
//! - a hyphen, a question mark or a colon is a block indicator only where a
//!   blank or a line break follows it, or the text ends; and a hyphen or a
//!   question mark only where nothing but spaces stands before it, since the
//!   line began or the last indicator was read;
//! - a collection in block style begins at a block indicator, and the
//!   collections that are open at one time begin at different columns: a
//!   sequence at the column of its hyphen, a mapping at the column of its
//!   question mark, or at the column where its key begins, which is where the
//!   first character stands that is no space, since the line began or the
//!   last indicator was read, or at the column of its colon, where the colon
//!   is the first of its line and ends a text that runs over lines;
//! - behind the colon of a key that stands on the line of its colon, no
//!   collection in block style begins on that line; a colon that has
//!   something before it, since the line began or the last indicator was
//!   read, is such a colon, or the one colon of its line that ends a text
//!   that runs over lines: so behind the second of them none begins;
//! - a carriage return that no line feed follows begins a line, but the
//!   columns run on and a key that began before it can still get its colon;
//! - a sequence whose hyphens stand at the column of the key that it belongs
//!   to shares that column with the mapping of the key;
//! - a collection in flow style begins at an opening bracket or brace and
//!   ends at a closing one, and a single pair inside a flow sequence is a
//!   mapping of its own; inside a quoted text, a comment, a tag or a
//!   directive a bracket or brace is none, so that once a quotation mark, a
//!   number sign, an exclamation mark or a percent sign has come among the
//!   open ones, none is taken to close;
//! - an alias stands for a copy of the node that an anchor marks, so that
//!   what holds an alias is deeper than what the alias stands for, by one
//!   link of a chain that needs an anchor and an alias for each link.
//!
//! So no collection lies deeper in the text than twice the number of columns
//! at which a collection in block style can begin, plus twice the greatest
//! number of brackets and braces that are open at one time; and the tree that
//! is built from the text is at most that deep once more for each link.

use crate::text::chars_of;
use vstd::prelude::*;

verus! {

/// The greatest estimate of depth with which a metadata block is read.
///
/// The loader of the blocks was run on texts of growing depth in a thread
/// with a stack of 2 MiB, which is what a spawned thread gets by default. It ran
/// out of stack between 625 and 650 nested mappings, and when it let go of a
/// tree between 500 and 1000 levels deep that aliases had built: it needs
/// less than 4 KiB for a level. At this bound it stays within 1 MiB.
pub const MAX_DEPTH: usize = 256;

/// What a pass over the characters of a text keeps count of.
pub struct Tally {
    /// The column of the next character, counted from the last line feed.
    pub column: nat,
    /// Where the first character stands that is no space, since the line
    /// began or the last block indicator was read; `None` before it.
    pub segment: Option<nat>,
    /// The last character of the line so far that is no blank.
    pub last: Option<char>,
    /// A colon that is a block indicator has come on the line.
    pub colon: bool,
    /// The colons on the line so far that have a key before them, two at
    /// most: behind the second no indicator counts.
    pub keys: nat,
    /// The columns at which a collection in block style can begin.
    pub columns: Set<nat>,
    /// The brackets and braces that can be open.
    pub open: nat,
    /// Among the open ones a character has come behind which a closing
    /// bracket or brace may be none.
    pub tainted: bool,
    /// The most brackets and braces that were open at one time.
    pub peak: nat,
    /// The ampersands so far: each anchor begins with one.
    pub anchors: nat,
    /// The asterisks so far that can begin an alias.
    pub aliases: nat,
}

/// A hyphen, a question mark or a colon.
pub open spec fn is_block_mark(c: char) -> bool {
    c == '-' || c == '?' || c == ':'
}

/// What follows ends a word: a blank, a line break, the end of the text.
pub open spec fn ends_word(next: Option<char>) -> bool {
    match next {
        None => true,
        Some(c) => c == ' ' || c == '\t' || c == '\n' || c == '\r' || c == '\0',
    }
}

/// A character behind which a node can begin on the same line: a block
/// mark, a bracket, a brace, a comma or a quotation mark.
pub open spec fn is_indicator(c: char) -> bool {
    is_block_mark(c) || c == '[' || c == '{' || c == ']' || c == '}' || c == ',' || c == '"' || c
        == '\''
}

/// An opening bracket or brace.
pub open spec fn is_opening(c: char) -> bool {
    c == '[' || c == '{'
}

/// A closing bracket or brace.
pub open spec fn is_closing(c: char) -> bool {
    c == ']' || c == '}'
}

/// A character that can begin a quoted text, a comment, a tag or a
/// directive, in which a bracket or brace is none.
pub open spec fn hides_brackets(c: char) -> bool {
    c == '"' || c == '\'' || c == '#' || c == '!' || c == '%'
}

/// The brackets and braces that can be open behind one more character.
pub open spec fn open_step(open: nat, tainted: bool, c: char) -> nat {
    if is_opening(c) {
        open + 1
    } else if is_closing(c) && !tainted && open > 0 {
        (open - 1) as nat
    } else {
        open
    }
}

/// An asterisk at this place can begin an alias: it is the first character of
/// its line that is no blank, or the last one before it is an indicator.
pub open spec fn begins_alias(last: Option<char>, c: char) -> bool {
    c == '*' && (last matches Some(before) ==> is_indicator(before))
}

/// The count before the first character.
pub open spec fn tally_start() -> Tally {
    Tally {
        column: 0,
        segment: None,
        last: None,
        colon: false,
        keys: 0,
        columns: Set::empty(),
        open: 0,
        tainted: false,
        peak: 0,
        anchors: 0,
        aliases: 0,
    }
}

/// The columns with the one more where a key began that can still get its
/// colon.
pub open spec fn with_open_key(columns: Set<nat>, segment: Option<nat>) -> Set<nat> {
    match segment {
        Some(begin) => columns.insert(begin),
        None => columns,
    }
}

/// The count behind one more character, `c`, which `next` follows.
///
/// A line feed begins a line at column 0. A carriage return before a line
/// feed is part of that line break. Any other carriage return begins a line
/// too, but the columns run on, and the column counts where a key began
/// before it. A space moves the column only. A hyphen or a question mark that
/// is a block indicator adds its column. A colon that is one adds the column
/// where its key began, and its own if it is the first of its line. Behind
/// the second colon of a line that has a key before it, nothing is added.
pub open spec fn tally_step(t: Tally, c: char, next: Option<char>) -> Tally {
    if c == '\n' {
        Tally { column: 0, segment: None, last: None, colon: false, keys: 0, ..t }
    } else if c == '\r' && next == Some('\n') {
        Tally { column: t.column + 1, ..t }
    } else if c == '\r' {
        Tally {
            column: t.column + 1,
            segment: None,
            last: None,
            colon: false,
            keys: 0,
            columns: with_open_key(t.columns, t.segment),
            ..t
        }
    } else if c == ' ' {
        Tally { column: t.column + 1, ..t }
    } else {
        let begin = match t.segment {
            Some(begin) => begin,
            None => t.column,
        };
        let entry = (c == '-' || c == '?') && ends_word(next) && t.segment is None && t.keys < 2;
        let colon = c == ':' && ends_word(next) && t.keys < 2;
        Tally {
            column: t.column + 1,
            segment: if entry || colon {
                None
            } else {
                Some(begin)
            },
            last: if c == '\t' {
                t.last
            } else {
                Some(c)
            },
            colon: t.colon || colon,
            keys: if colon && t.segment is Some {
                t.keys + 1
            } else {
                t.keys
            },
            columns: if entry {
                t.columns.insert(t.column)
            } else if colon && t.colon {
                t.columns.insert(begin)
            } else if colon {
                t.columns.insert(begin).insert(t.column)
            } else {
                t.columns
            },
            open: open_step(t.open, t.tainted, c),
            tainted: open_step(t.open, t.tainted, c) > 0 && (t.tainted || (t.open > 0
                && hides_brackets(c))),
            peak: if open_step(t.open, t.tainted, c) > t.peak {
                open_step(t.open, t.tainted, c)
            } else {
                t.peak
            },
            anchors: if c == '&' {
                t.anchors + 1
            } else {
                t.anchors
            },
            aliases: if begins_alias(t.last, c) {
                t.aliases + 1
            } else {
                t.aliases
            },
        }
    }
}

/// What follows the character at position `i` of `text`.
pub open spec fn next_of(text: Seq<char>, i: int) -> Option<char> {
    if i + 1 < text.len() {
        Some(text[i + 1])
    } else {
        None
    }
}

/// The count behind the first `n` characters of `text`.
pub open spec fn tally(text: Seq<char>, n: nat) -> Tally
    decreases n,
{
    if n == 0 {
        tally_start()
    } else {
        tally_step(tally(text, (n - 1) as nat), text[n - 1], next_of(text, n - 1))
    }
}

/// The links of the longest chain of aliases that `text` can hold: each link
/// needs an anchor and an alias.
pub open spec fn links(text: Seq<char>) -> nat {
    let t = tally(text, text.len());
    if t.anchors <= t.aliases {
        t.anchors
    } else {
        t.aliases
    }
}

/// How deep the collections of `text` can nest in the text: they nest no
/// deeper.
pub open spec fn nesting_estimate(text: Seq<char>) -> nat {
    let t = tally(text, text.len());
    2 * t.columns.len() + 2 * t.peak
}

/// How deep the tree that is built from `text` can be, with the copies that
/// its aliases stand for: it is no deeper.
pub open spec fn depth_estimate(text: Seq<char>) -> nat {
    nesting_estimate(text) * (links(text) + 1)
}

/// The block is plain enough to be read: its estimate of depth is within
/// the bound.
pub open spec fn is_plain(block: Seq<char>) -> bool {
    depth_estimate(block) <= MAX_DEPTH
}

/// A text without a block indicator, a bracket, a brace or a carriage
/// return is plain, however long it is and whatever else it holds.
pub proof fn lemma_text_without_indicator_is_plain(text: Seq<char>)
    requires
        forall|i: int|
            0 <= i < text.len() ==> !(is_block_mark(#[trigger] text[i]) && ends_word(
                next_of(text, i),
            )) && text[i] != '[' && text[i] != '{' && text[i] != '\r',
    ensures
        nesting_estimate(text) == 0,
        is_plain(text),
{
    lemma_nothing_counted(text, text.len());
    assert(0 * (links(text) + 1) == 0) by (nonlinear_arith);
}

/// The count of the beginning of a text without indicator, bracket or brace.
proof fn lemma_nothing_counted(text: Seq<char>, n: nat)
    requires
        n <= text.len(),
        forall|i: int|
            0 <= i < text.len() ==> !(is_block_mark(#[trigger] text[i]) && ends_word(
                next_of(text, i),
            )) && text[i] != '[' && text[i] != '{' && text[i] != '\r',
    ensures
        tally(text, n).columns == Set::<nat>::empty(),
        tally(text, n).open == 0,
        tally(text, n).peak == 0,
    decreases n,
{
    if n > 0 {
        lemma_nothing_counted(text, (n - 1) as nat);
    }
}

/// The estimate of depth of a block, where it is within the bound.
pub fn estimate_depth(block: &str) -> (estimate: Option<usize>)
    ensures
        match estimate {
            Some(depth) => depth == depth_estimate(block@) && depth <= MAX_DEPTH,
            None => depth_estimate(block@) > MAX_DEPTH,
        },
{
    let chars = chars_of(block);
    let n = chars.len();
    let mut seen: Vec<bool> = Vec::new();
    while seen.len() < n
        invariant
            seen.len() <= n,
            forall|k: int| 0 <= k < seen.len() ==> !seen@[k],
        decreases n - seen.len(),
    {
        seen.push(false);
    }
    let mut column: usize = 0;
    let mut segment: Option<usize> = None;
    let mut last: Option<char> = None;
    let mut colon: bool = false;
    let mut keys: usize = 0;
    let mut count: usize = 0;
    let mut open: usize = 0;
    let mut tainted: bool = false;
    let mut peak: usize = 0;
    let mut anchors: usize = 0;
    let mut aliases: usize = 0;
    let ghost mut columns: Set<nat> = Set::empty();
    let mut i: usize = 0;
    while i < n
        invariant
            chars@ == block@,
            n == chars.len(),
            seen.len() == n,
            i <= n,
            tally(block@, i as nat) == (Tally {
                column: column as nat,
                segment: match segment {
                    Some(begin) => Some(begin as nat),
                    None => None,
                },
                last,
                colon,
                keys: keys as nat,
                columns,
                open: open as nat,
                tainted,
                peak: peak as nat,
                anchors: anchors as nat,
                aliases: aliases as nat,
            }),
            column <= i,
            keys <= 2,
            segment matches Some(begin) ==> begin < column,
            columns.finite(),
            count == if columns.len() <= MAX_DEPTH {
                columns.len()
            } else {
                (MAX_DEPTH + 1) as nat
            },
            forall|k: nat| columns.contains(k) ==> k < i,
            forall|k: int| 0 <= k < n ==> seen@[k] == columns.contains(k as nat),
            open <= i,
            peak <= i,
            anchors <= i,
            aliases <= i,
        decreases n - i,
    {
        let c = chars[i];
        let ends = i + 1 >= n || chars[i + 1] == ' ' || chars[i + 1] == '\t' || chars[i + 1]
            == '\n' || chars[i + 1] == '\r' || chars[i + 1] == '\0';
        assert(ends == ends_word(next_of(block@, i as int)));
        if c == '\n' {
            column = 0;
            segment = None;
            last = None;
            colon = false;
            keys = 0;
        } else if c == '\r' && i + 1 < n && chars[i + 1] == '\n' {
            column += 1;
        } else if c == '\r' {
            match segment {
                Some(begin) => {
                    if !seen[begin] {
                        seen.set(begin, true);
                        if count <= MAX_DEPTH {
                            count += 1;
                        }
                    }
                    proof {
                        columns = columns.insert(begin as nat);
                    }
                },
                None => {},
            }
            column += 1;
            segment = None;
            last = None;
            colon = false;
            keys = 0;
        } else if c == ' ' {
            column += 1;
        } else {
            let begin = match segment {
                Some(begin) => begin,
                None => column,
            };
            let entry = (c == '-' || c == '?') && ends && segment.is_none() && keys < 2;
            let value = c == ':' && ends && keys < 2;
            if value {
                if !seen[begin] {
                    seen.set(begin, true);
                    if count <= MAX_DEPTH {
                        count += 1;
                    }
                }
                proof {
                    columns = columns.insert(begin as nat);
                }
            }
            if entry || (value && !colon) {
                if !seen[column] {
                    seen.set(column, true);
                    if count <= MAX_DEPTH {
                        count += 1;
                    }
                }
                proof {
                    columns = columns.insert(column as nat);
                }
            }
            if value {
                colon = true;
                if segment.is_some() {
                    keys += 1;
                }
            }
            if entry || value {
                segment = None;
            } else {
                segment = Some(begin);
            }
            let hides = open > 0 && (c == '"' || c == '\'' || c == '#' || c == '!' || c == '%');
            if c == '[' || c == '{' {
                open += 1;
            } else if (c == ']' || c == '}') && !tainted && open > 0 {
                open -= 1;
            }
            tainted = open > 0 && (tainted || hides);
            if open > peak {
                peak = open;
            }
            if c == '&' {
                anchors += 1;
            }
            if c == '*' && match last {
                None => true,
                Some(before) => before == '-' || before == '?' || before == ':' || before == '['
                    || before == '{' || before == ']' || before == '}' || before == ','
                    || before == '"' || before == '\'',
            } {
                aliases += 1;
            }
            if c != '\t' {
                last = Some(c);
            }
            column += 1;
        }
        i += 1;
    }
    let links = if anchors <= aliases {
        anchors
    } else {
        aliases
    };
    if count > MAX_DEPTH || peak > MAX_DEPTH {
        proof {
            lemma_product_exceeds(nesting_estimate(block@), links as nat + 1, MAX_DEPTH as nat);
        }
        return None;
    }
    let nesting = 2 * count + 2 * peak;
    if nesting == 0 {
        assert(0 * (links as nat + 1) == 0) by (nonlinear_arith);
        return Some(0);
    }
    if nesting > MAX_DEPTH || links > MAX_DEPTH {
        proof {
            lemma_product_exceeds(nesting as nat, links as nat + 1, MAX_DEPTH as nat);
        }
        return None;
    }
    assert(nesting * (links + 1) <= 256 * 257) by (nonlinear_arith)
        requires
            nesting <= 256,
            links <= 256,
    ;
    if nesting * (links + 1) <= MAX_DEPTH {
        Some(nesting * (links + 1))
    } else {
        None
    }
}

/// Whether the block is plain enough to be read.
pub fn check_plain(block: &str) -> (plain: bool)
    ensures
        plain == is_plain(block@),
{
    estimate_depth(block).is_some()
}

/// A product exceeds what one of its factors exceeds, where the other is not
/// zero.
proof fn lemma_product_exceeds(a: nat, b: nat, bound: nat)
    ensures
        b >= 1 && a > bound ==> a * b > bound,
        a >= 1 && b > bound ==> a * b > bound,
{
    assert(b >= 1 && a > bound ==> a * b > bound) by (nonlinear_arith);
    assert(a >= 1 && b > bound ==> a * b > bound) by (nonlinear_arith);
}

} // verus!
