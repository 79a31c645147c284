use sitegen::nesting::check_plain;
use sitegen::nesting::MAX_DEPTH;

#[test]
fn depth_bound_is_256() {
    assert_eq!(MAX_DEPTH, 256);
}

#[test]
fn text_without_indicator_has_no_depth() {
    assert_eq!(estimate_depth(""), Some(0));
    assert_eq!(estimate_depth("\n\n\n"), Some(0));
    assert_eq!(estimate_depth("just a scalar"), Some(0));
    assert_eq!(estimate_depth(&"-".repeat(10_000)), Some(0));
    assert_eq!(estimate_depth(&"a - b ? c ".repeat(10_000)), Some(0));
    assert_eq!(estimate_depth(&"a:b ?c -d ".repeat(10_000)), Some(0));
    assert_eq!(estimate_depth(&format!("{}a", " ".repeat(10_000))), Some(0));
    assert_eq!(estimate_depth(&"*".repeat(10_000)), Some(0));
    assert_eq!(estimate_depth(&"&a *a\n".repeat(10_000)), Some(0));
}

#[test]
fn block_indicator_is_one_that_a_blank_or_the_end_follows() {
    assert_eq!(estimate_depth("-"), Some(2));
    assert_eq!(estimate_depth("- a"), Some(2));
    assert_eq!(estimate_depth("-\ta"), Some(2));
    assert_eq!(estimate_depth("-\n"), Some(2));
    assert_eq!(estimate_depth("-\r"), Some(2));
    assert_eq!(estimate_depth("-a"), Some(0));
    // a hyphen behind another is no indicator
    assert_eq!(estimate_depth("--"), Some(0));
    assert_eq!(estimate_depth("a -"), Some(0));
    assert_eq!(estimate_depth("a ? b"), Some(0));
    // a colon is one wherever a blank follows it
    assert_eq!(estimate_depth("a :"), Some(4));
    assert_eq!(estimate_depth("?"), Some(2));
    assert_eq!(estimate_depth("?a"), Some(0));
    assert_eq!(estimate_depth(":"), Some(2));
    assert_eq!(estimate_depth("a:b"), Some(0));
    assert_eq!(estimate_depth("2020-01-01T00:00:00-08:00"), Some(0));
}

#[test]
fn indicator_counts_its_column_and_that_of_its_key() {
    // the colon at column 1 and the key at column 0
    assert_eq!(estimate_depth("a: b"), Some(4));
    assert_eq!(estimate_depth("title: b"), Some(4));
    // hyphens at columns 0, 2 and 4
    assert_eq!(estimate_depth("- - - a"), Some(6));
    // hyphen at 0, key at 2, colon at 3
    assert_eq!(estimate_depth("- a: b"), Some(6));
    // key at 4, colon at 5
    assert_eq!(estimate_depth("    a: b"), Some(4));
    // the key begins at the anchor
    assert_eq!(estimate_depth("&x a: b"), Some(4));
    // a tab is no space: the key can begin at it
    assert_eq!(estimate_depth("\ta: b"), Some(4));
}

#[test]
fn columns_count_once_each() {
    assert_eq!(estimate_depth(&"a: b\n".repeat(10_000)), Some(4));
    assert_eq!(estimate_depth(&"  - c\n".repeat(10_000)), Some(2));
    assert_eq!(estimate_depth("a: 1\nb: 2\ncc: 3\n"), Some(6));
    assert_eq!(estimate_depth("k:\n  - a\n  - b\nl:\n  - c\n"), Some(6));
    let keys: String = (0..10_000).map(|i| format!("k{}: 2020-01-01T00:00:00-08:00\n", i % 10)).collect();
    assert_eq!(estimate_depth(&keys), Some(4));
}

#[test]
fn title_of_hyphens_nests_nowhere() {
    let block = format!("title: {}\ncategories: [a, 1]\n", "-".repeat(64));
    // columns 0, 5 and 10, and one bracket
    assert_eq!(estimate_depth(&block), Some(8));
    let block = format!("title: {}\n", "-".repeat(100_000));
    assert_eq!(estimate_depth(&block), Some(4));
    let block = format!("title: a{}\n", " - b".repeat(100_000));
    assert_eq!(estimate_depth(&block), Some(4));
}

#[test]
fn deep_indentation_is_no_depth() {
    assert_eq!(estimate_depth(&format!("{}a", " ".repeat(64))), Some(0));
    assert_eq!(estimate_depth(&format!("k: |\n{}text\n", " ".repeat(64))), Some(4));
    assert_eq!(estimate_depth(&format!("{}a: b", " ".repeat(1000))), Some(4));
}

#[test]
fn nothing_counts_behind_the_second_keyed_colon_of_a_line() {
    // the key at column 0 and its colon, and the key at column 3
    assert_eq!(estimate_depth("a: b: c: d: e: f"), Some(6));
    assert_eq!(estimate_depth(&format!("a: b{}", ": c".repeat(10_000))), Some(6));
    let pairs: String = (0..130).map(|i| format!("k{}: v, ", i)).collect();
    // one brace, and the columns of the first two keys and the first colon
    assert_eq!(estimate_depth(&format!("{{{}}}", pairs)), Some(8));
    assert_eq!(estimate_depth(&format!("a: b: c: - - - x\n")), Some(6));
    // a line of its own begins anew
    assert_eq!(estimate_depth("a: b: c: d\n- - - x\n"), Some(10));
    // colons without a key before them do not end the counting
    assert_eq!(estimate_depth(": : : : x"), Some(8));
}

#[test]
fn columns_over_the_bound_are_too_deep() {
    // 128 hyphens at 128 columns: 2 * 128 = 256
    assert_eq!(estimate_depth(&"- ".repeat(128)), Some(256));
    assert_eq!(estimate_depth(&"- ".repeat(129)), None);
    assert!(check_plain(&"- ".repeat(128)));
    assert!(!check_plain(&"- ".repeat(129)));
    let steps: String = (0..127).map(|i| format!("{}a:\n", " ".repeat(i))).collect();
    // keys at columns 0 to 126, colons at 1 to 127
    assert_eq!(estimate_depth(&steps), Some(256));
    let steps: String = (0..128).map(|i| format!("{}a:\n", " ".repeat(i))).collect();
    assert_eq!(estimate_depth(&steps), None);
    assert_eq!(estimate_depth(&"- ".repeat(100_000)), None);
}

#[test]
fn brackets_count_twice_while_they_are_open() {
    assert_eq!(estimate_depth("[a, b]"), Some(2));
    assert_eq!(estimate_depth("{a}"), Some(2));
    assert_eq!(estimate_depth("c: [a, b]"), Some(6));
    assert_eq!(estimate_depth("[[a], [b], {c}]"), Some(4));
    assert_eq!(estimate_depth(&"[".repeat(128)), Some(256));
    assert_eq!(estimate_depth(&"[".repeat(129)), None);
    assert_eq!(estimate_depth(&"{".repeat(128)), Some(256));
    assert_eq!(estimate_depth(&"]}".repeat(10_000)), Some(0));
    // closed again, they count once
    assert_eq!(estimate_depth(&"[a]\n".repeat(10_000)), Some(2));
    // columns 0, 1 and 3, and two open at one time
    assert_eq!(estimate_depth(&"k: [a, {b: c}]\n".repeat(10_000)), Some(10));
    assert_eq!(estimate_depth(&"a[b]c ".repeat(10_000)), Some(2));
}

#[test]
fn brackets_stay_open_behind_what_can_hide_their_closing() {
    // the closing bracket may stand inside the quoted text
    assert_eq!(estimate_depth("[\"a]\", [b]]"), Some(4));
    assert_eq!(estimate_depth("['a', b]\n[c]\n"), Some(4));
    assert_eq!(estimate_depth("[a, # b]\n c]\n[d]\n"), Some(4));
    assert_eq!(estimate_depth("[!t a]\n[b]\n"), Some(4));
    assert_eq!(estimate_depth(&"[\"a\"]\n".repeat(128)), Some(256));
    assert_eq!(estimate_depth(&"[\"a\"]\n".repeat(129)), None);
    // outside of brackets nothing is hidden
    assert_eq!(estimate_depth(&"k: \"v\" # c\nl: [a]\n".repeat(10_000)), Some(6));
    assert_eq!(estimate_depth(&"\"q\"\n[a]\n'r'\n!t x\n".repeat(10_000)), Some(2));
}

#[test]
fn carriage_return_begins_a_line_but_columns_run_on() {
    // keys at columns 0 and 5, colons at 1 and 6, and the value at 3 as a key
    assert_eq!(estimate_depth("a: b\ra: b"), Some(10));
    assert_eq!(estimate_depth("a: b\r\na: b"), Some(4));
    assert_eq!(estimate_depth("a: b\na: b"), Some(4));
}

#[test]
fn alias_counts_where_the_block_holds_an_anchor_for_it() {
    // without an anchor no alias is a link
    assert_eq!(estimate_depth(&"a: *b\n".repeat(1000)), Some(4));
    assert_eq!(estimate_depth(&format!("d: 2020-01-01T00:00:00Z\nc: [x]\nt: |\n{}", "  * item\n".repeat(8))), Some(6));
    // one anchor, many aliases: one link
    assert_eq!(estimate_depth(&format!("a: &x b\n{}", "c: *x\n".repeat(1000))), Some(8));
    // many anchors, one alias: one link
    assert_eq!(estimate_depth(&format!("{}c: *x\n", "a: &x b\n".repeat(1000))), Some(8));
    // each link once more
    assert_eq!(estimate_depth("a: &x b\nc: &y\n  - *x\nd: *y\n"), Some(18));
    // an alias behind an anchor is no node
    assert_eq!(estimate_depth("a: &x b\nc: &y *x\nd: *y\n"), Some(8));
    // an asterisk inside a text is no alias
    assert_eq!(estimate_depth("a: &x b\nc: x*y ** z\n"), Some(4));
    assert_eq!(estimate_depth("a: &x b\nc: x *y\n"), Some(4));
    assert_eq!(estimate_depth("a: &x b\n*x\n"), Some(8));
    assert_eq!(estimate_depth("a: &x b\n- *x\n"), Some(8));
    assert_eq!(estimate_depth("a: &x b\n[*x,*x]\n"), Some(12));
}

#[test]
fn long_chain_of_aliases_is_too_deep() {
    let mut block = String::from("a0: &a0\n  - x\n");
    for i in 1..64 {
        block += &format!("a{}: &a{}\n  - *a{}\n", i, i, i - 1);
    }
    // columns 0, 2 and the colons at 2 and 3: 2 * 4 = 8, with 63 links
    assert_eq!(estimate_depth(&block), None);
    let mut block = String::from("a: &a\n  - x\n");
    for _ in 1..32 {
        block += "a: &a\n  - *a\n";
    }
    // columns 0, 1 and 2: 2 * 3 = 6, with 31 links
    assert_eq!(estimate_depth(&block), Some(192));
}

use sitegen::nesting::estimate_depth;
use yaml_rust::parser::Event;
use yaml_rust::parser::MarkedEventReceiver;
use yaml_rust::parser::Parser;
use yaml_rust::scanner::Marker;
use yaml_rust::Yaml;
use yaml_rust::YamlLoader;

struct Nesting {
    open: usize,
    deepest: usize,
}

impl MarkedEventReceiver for Nesting {
    fn on_event(&mut self, event: Event, _: Marker) {
        match event {
            Event::SequenceStart(_) | Event::MappingStart(_) => {
                self.open += 1;
                self.deepest = self.deepest.max(self.open);
            }
            Event::SequenceEnd | Event::MappingEnd => self.open -= 1,
            _ => {}
        }
    }
}

/// How deep the loader goes into the text before it ends or gives up.
fn nesting_of(text: &str) -> usize {
    let mut nesting = Nesting { open: 0, deepest: 0 };
    let _ = Parser::new(text.chars()).load(&mut nesting, true);
    nesting.deepest
}

fn height(node: &Yaml) -> usize {
    match node {
        Yaml::Array(items) => 1 + items.iter().map(height).max().unwrap_or(0),
        Yaml::Hash(pairs) => {
            1 + pairs.iter().map(|(key, value)| height(key).max(height(value))).max().unwrap_or(0)
        }
        _ => 0,
    }
}

/// How deep the tree is that the loader builds from the text.
fn height_of(text: &str) -> usize {
    match YamlLoader::load_from_str(text) {
        Ok(docs) => docs.iter().map(height).max().unwrap_or(0),
        Err(_) => 0,
    }
}

fn assert_estimate_holds(text: &str) {
    if let Some(estimate) = estimate_depth(text) {
        let nesting = nesting_of(text);
        let height = height_of(text);
        assert!(nesting <= estimate, "nesting {} over estimate {} for {:?}", nesting, estimate, text);
        assert!(height <= estimate, "height {} over estimate {} for {:?}", height, estimate, text);
    }
}

struct Dice(u64);

impl Dice {
    fn roll(&mut self, sides: usize) -> usize {
        self.0 = self.0.wrapping_mul(6364136223846793005).wrapping_add(1442695040888963407);
        ((self.0 >> 33) as usize) % sides
    }
}

/// A text that nests `levels` deep along one path, each level in a style of
/// its own.
fn nested(dice: &mut Dice, levels: usize, line_break: &str) -> String {
    let block_levels = dice.roll(levels + 1);
    let mut text = String::new();
    let mut column = dice.roll(3);
    text += &" ".repeat(column);
    for _ in 0..block_levels {
        match dice.roll(6) {
            0 => {
                text += "- ";
                column += 2;
            }
            1 => {
                text += "? ";
                column += 2;
            }
            2 => {
                column += 1 + dice.roll(3);
                text += &format!("k:{}{}", line_break, " ".repeat(column));
            }
            3 => {
                text += &format!("k:{}{}- ", line_break, " ".repeat(column));
                column += 2;
            }
            4 => {
                column += 1 + dice.roll(2);
                text += &format!("-{}{}", line_break, " ".repeat(column));
            }
            _ => {
                column += 1;
                text += &format!("\"q\": # note: - ? [{}{}", line_break, " ".repeat(column));
            }
        }
    }
    let mut closers = String::new();
    for _ in block_levels..levels {
        match dice.roll(5) {
            0 => {
                text += "[";
                closers.insert(0, ']');
            }
            1 => {
                text += "{k: ";
                closers.insert(0, '}');
            }
            2 => {
                text += "[k: ";
                closers.insert(0, ']');
            }
            3 => {
                text += &format!("[{} ", line_break);
                closers.insert(0, ']');
            }
            _ => {
                text += "[? ";
                closers.insert(0, ']');
            }
        }
    }
    text += ["x", "'y'", "\"z\"", "", "- x", "a: b", "*a", "&a x", "|\n   t"][dice.roll(9)];
    text += &closers;
    text
}

#[test]
fn estimate_is_not_below_the_nesting_of_texts_in_many_styles() {
    let mut dice = Dice(1);
    for _ in 0..20_000 {
        let levels = dice.roll(70);
        let line_break = ["\n", "\n", "\n", "\r\n", "\r"][dice.roll(5)];
        let text = nested(&mut dice, levels, line_break);
        assert_estimate_holds(&text);
    }
}

#[test]
fn estimate_is_not_below_the_nesting_of_texts_of_several_paths() {
    let mut dice = Dice(2);
    for _ in 0..10_000 {
        let mut text = String::new();
        for _ in 0..dice.roll(5) {
            let levels = dice.roll(40);
            text += &nested(&mut dice, levels, "\n");
            text += ["\n", "\n---\n", "\n...\n", "\r", " # c\n"][dice.roll(5)];
        }
        assert_estimate_holds(&text);
    }
}

#[test]
fn estimate_is_not_below_the_nesting_of_any_characters() {
    let pieces = [
        "-", " ", "\n", ":", "?", "[", "]", "{", "}", ",", "a", "&a", "*a", "!", "|", ">", "'",
        "\"", "#", "\t", "\r", "- ", ": ", "? ", "\n ", "\n  ", "k: ", "---", "%", "\\",
    ];
    let mut dice = Dice(3);
    for _ in 0..60_000 {
        let mut text = String::new();
        for _ in 0..dice.roll(40) {
            text += pieces[dice.roll(pieces.len())];
        }
        assert_estimate_holds(&text);
    }
}

#[test]
fn estimate_is_not_below_the_nesting_of_keys_of_many_kinds() {
    let pieces = [
        "&a k: ", "!t k: ", "\"q\": ", "'s': ", "[a]: ", "{a: b}: ", "? ", ": ", "k : ", "\n", "\n ",
        "\n  ", "- ", "a\n b: ", "a\n  b\n   c: ", "\"a\n b\": ", "x", " ", "\t", "&a !t k: ",
        "*a : ", "&a\n", "!t\n", "-\n", "k:\t", "k:\n", "-\t", "\r", "#c\n", "--- ",
    ];
    let mut dice = Dice(5);
    for _ in 0..60_000 {
        let mut text = String::new();
        for _ in 0..dice.roll(30) {
            text += pieces[dice.roll(pieces.len())];
        }
        assert_estimate_holds(&text);
    }
}

#[test]
fn estimate_is_not_below_the_nesting_where_carriage_returns_break_lines() {
    let pieces = [
        "\r", "\r:", "\r: ", "k\r:", "k\r: ", "kk\r:\n", "\n", "\n ", "\n  ", " ", "k", ": ", "- ",
        "\r- ", "\r? ", "\r\n", "\"q\"\r: ", "\"a: b\"\r: ", "x y", "a\rb", "a\r b: ", "-\r", "?\r",
        ":\r", "\r ", "\r  ", "&a ", "[", "]",
    ];
    let mut dice = Dice(6);
    for _ in 0..60_000 {
        let mut text = String::new();
        for _ in 0..dice.roll(30) {
            text += pieces[dice.roll(pieces.len())];
        }
        assert_estimate_holds(&text);
    }
    for levels in 1..100usize {
        // keys at columns of their own, all their colons at one column
        let text: String = (0..levels)
            .map(|i| format!("{}{}\r:\n", " ".repeat(i), "b".repeat(levels - i)))
            .collect();
        assert_eq!(nesting_of(&text), levels);
        assert_estimate_holds(&text);
    }
}

#[test]
fn estimate_is_not_below_the_nesting_of_texts_that_run_over_lines() {
    let pieces = [
        "word ", "a - b ", "note: ", "x: y ", "- ", "? ", "\n", "\n  ", "\n    ", "k: |\n", "k: >\n",
        "k: ", "\"q: - \" ", "'s - : ' ", "# c: - \n", "a\n b ", "a:b ", "-x ", "?x ", "  ", "\t",
        "text\n   more: ", "- - ", "k:\n", "\n- ", "\n  - ", "\nk: ",
    ];
    let mut dice = Dice(7);
    for _ in 0..60_000 {
        let mut text = String::new();
        for _ in 0..dice.roll(30) {
            text += pieces[dice.roll(pieces.len())];
        }
        assert_estimate_holds(&text);
    }
    for levels in 1..100usize {
        // each colon ends a text of two lines and begins a mapping at its own column
        let text: String = (0..levels)
            .map(|i| format!("{}a\n{}b: \n", " ".repeat(2 * i), " ".repeat(2 * i + 1)))
            .collect();
        assert_estimate_holds(&text);
    }
}

#[test]
fn estimate_is_not_below_the_nesting_where_brackets_are_hidden() {
    let pieces = [
        "[", "]", "{", "}", ",", "a", " ", "\n", ": ", ":", "? ", "\"", "'", "#", " #", "!", "!t", "!<",
        ">", "%", "\n%", "&a", "*a", "\"]\"", "']'", " # ]\n", "!t]", "\"[\"", "'['", "[a]", "{a: b}",
        "[[", "]]", "\\", "\\\"", "''", "k: ", "- ", "\n- ", "\nk: ", "|", "\"\n", "'\n", "a]b", "a[b",
        "a}b", "a{b", "]\n[", "\0", "\t", "\r",
    ];
    let mut dice = Dice(8);
    for _ in 0..60_000 {
        let mut text = String::new();
        for _ in 0..dice.roll(30) {
            text += pieces[dice.roll(pieces.len())];
        }
        assert_estimate_holds(&text);
    }
}

#[test]
fn estimate_is_close_where_sequences_share_the_column_of_their_keys() {
    for levels in 1..120 {
        let text: String =
            (0..levels).map(|i| format!("{}a:\n{}-\n", " ".repeat(i), " ".repeat(i))).collect();
        assert_eq!(nesting_of(&text), 2 * levels);
        assert_eq!(estimate_depth(&text), Some(2 * levels + 2));
    }
}

#[test]
fn estimate_is_twice_the_nesting_of_sequences_on_one_line() {
    for levels in 1..=128 {
        let text = format!("{}a", "- ".repeat(levels));
        assert_eq!(nesting_of(&text), levels);
        assert_eq!(estimate_depth(&text), Some(2 * levels));
    }
}

#[test]
fn estimate_is_not_below_the_nesting_of_pairs_in_flow_sequences() {
    for levels in 1..=40 {
        let text = format!("{}a{}", "[a: ".repeat(levels), "]".repeat(levels));
        assert_eq!(nesting_of(&text), 2 * levels);
        // two for each bracket, and the columns of the first two keys and the first colon
        assert_eq!(estimate_depth(&text), Some(2 * levels + if levels == 1 { 4 } else { 6 }));
        let text = format!("{}a{}", "[a:[".repeat(levels), "]]".repeat(levels));
        assert_eq!(nesting_of(&text), 3 * levels);
        assert_eq!(estimate_depth(&text), Some(4 * levels));
    }
}

#[test]
fn estimate_is_not_below_the_height_of_chains_of_aliases() {
    for links in 1..=20 {
        let mut text = String::from("a0: &a0\n  - x\n");
        for i in 1..=links {
            text += &format!("a{}: &a{}\n  - *a{}\n", i, i, i - 1);
        }
        // a mapping, and a sequence for the first anchor and for each link
        assert_eq!(height_of(&text), links + 2);
        let estimate = estimate_depth(&text).unwrap();
        assert!(links + 2 <= estimate && estimate <= 8 * (links + 1));
    }
}

#[test]
fn estimate_is_not_below_the_height_of_trees_with_aliases() {
    let mut dice = Dice(4);
    for _ in 0..3_000 {
        let mut text = String::from("a0: &a0\n  - x\n");
        let links = dice.roll(40);
        for i in 1..=links {
            let earlier = dice.roll(i);
            text += &match dice.roll(6) {
                0 => format!("a{}: &a{}\n  - *a{}\n", i, i, earlier),
                1 => format!("a{}: &a{} [*a{}]\n", i, i, earlier),
                2 => format!("a{}: &a{} {{k: *a{}}}\n", i, i, earlier),
                3 => format!("a{}: &a{}\n  k: *a{}\n", i, i, earlier),
                4 => format!("a{}: &a{}\n  ? *a{}\n  : *a{}\n", i, i, earlier, earlier),
                _ => format!("a{}: &a{}\n  -\t*a{}\n", i, i, earlier),
            };
        }
        assert_estimate_holds(&text);
    }
}
