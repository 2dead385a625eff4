//! Text: the sanitizing rule, and the few string operations the rest of the
//! crate is written with.
//!
//! External text headed for a terminal cell is data, never terminal control:
//! one rule for registry metadata, build output and subprocess stderr alike.
use vstd::prelude::*;

verus! {

/// `String::push` appends one character at the end of the string; this is the
/// whole of what is claimed of it.
pub assume_specification[ String::push ](s: &mut String, c: char)
    ensures
        final(s)@ == old(s)@.push(c),
;

/// A C0 or C1 control character, or DEL.
pub open spec fn control(c: char) -> bool {
    c as u32 <= 0x1f || 0x7f <= c as u32 <= 0x9f
}

/// A character with the Unicode property `White_Space`.
pub open spec fn white(c: char) -> bool {
    let n = c as u32;
    ||| 0x09 <= n <= 0x0d
    ||| n == 0x20
    ||| n == 0x85
    ||| n == 0xa0
    ||| n == 0x1680
    ||| 0x2000 <= n <= 0x200a
    ||| n == 0x2028
    ||| n == 0x2029
    ||| n == 0x202f
    ||| n == 0x205f
    ||| n == 0x3000
}

/// What [`sanitize`] makes of one character.
pub open spec fn sanitized_char(c: char) -> char {
    if control(c) {
        ' '
    } else {
        c
    }
}

/// What [`sanitize`] makes of a text: the same text, with a space in the
/// place of each control character.
pub open spec fn sanitized(text: Seq<char>) -> Seq<char> {
    Seq::new(text.len(), |i: int| sanitized_char(text[i]))
}

/// The maximal runs of characters that are not white space, in order: a
/// character continues the run before it, and starts one where it follows
/// white space or nothing.
pub open spec fn words_of(text: Seq<char>) -> Seq<Seq<char>>
    decreases text.len(),
{
    if text.len() == 0 {
        Seq::empty()
    } else {
        let before = words_of(text.drop_last());
        if white(text.last()) {
            before
        } else if text.len() == 1 || white(text[text.len() - 2]) {
            before.push(seq![text.last()])
        } else {
            before.update(before.len() - 1, before.last().push(text.last()))
        }
    }
}

/// The parts in order, with `sep` between each two.
pub open spec fn joined(parts: Seq<Seq<char>>, sep: Seq<char>) -> Seq<char>
    decreases parts.len(),
{
    if parts.len() == 0 {
        Seq::empty()
    } else if parts.len() == 1 {
        parts[0]
    } else {
        joined(parts.drop_last(), sep) + sep + parts.last()
    }
}

/// What stands after the last line feed.
pub open spec fn open_line(text: Seq<char>) -> Seq<char>
    decreases text.len(),
{
    if text.len() == 0 || text.last() == '\n' {
        Seq::empty()
    } else {
        open_line(text.drop_last()).push(text.last())
    }
}

/// A line without the carriage return before its line feed, if it has one.
pub open spec fn without_return(line: Seq<char>) -> Seq<char> {
    if line.len() > 0 && line.last() == '\r' {
        line.drop_last()
    } else {
        line
    }
}

/// The lines that a line feed ends.
pub open spec fn closed_lines(text: Seq<char>) -> Seq<Seq<char>>
    decreases text.len(),
{
    if text.len() == 0 {
        Seq::empty()
    } else if text.last() == '\n' {
        closed_lines(text.drop_last()).push(without_return(open_line(text.drop_last())))
    } else {
        closed_lines(text.drop_last())
    }
}

/// The lines of a text. The line feed that ends the last one is optional.
pub open spec fn lines_of(text: Seq<char>) -> Seq<Seq<char>> {
    if open_line(text).len() == 0 {
        closed_lines(text)
    } else {
        closed_lines(text).push(open_line(text))
    }
}

/// `part` stands in `text` at position `at`.
pub open spec fn stands_at(text: Seq<char>, part: Seq<char>, at: int) -> bool {
    &&& 0 <= at
    &&& at + part.len() <= text.len()
    &&& text.subrange(at, at + part.len()) == part
}

/// `part` stands somewhere in `text`.
pub open spec fn holds_part(text: Seq<char>, part: Seq<char>) -> bool {
    exists|at: int| stands_at(text, part, at)
}

/// The views of a list of strings.
pub open spec fn texts(v: Seq<String>) -> Seq<Seq<char>> {
    Seq::new(v.len(), |i: int| v[i]@)
}

/// Whether a text comes before another: at the first character where they
/// differ it has the lesser one, or it ends there.
pub open spec fn comes_before(a: Seq<char>, b: Seq<char>) -> bool
    decreases a.len(),
{
    if a.len() == 0 || b.len() == 0 {
        a.len() < b.len()
    } else if a[0] != b[0] {
        (a[0] as u32) < (b[0] as u32)
    } else {
        comes_before(a.drop_first(), b.drop_first())
    }
}

/// Whether each text comes before every later one.
pub open spec fn in_name_order(names: Seq<Seq<char>>) -> bool {
    forall|i: int, j: int|
        0 <= i < j < names.len() ==> comes_before(#[trigger] names[i], #[trigger] names[j])
}

/// No text comes before itself.
pub proof fn law_no_text_comes_before_itself(text: Seq<char>)
    ensures
        !comes_before(text, text),
    decreases text.len(),
{
    if text.len() > 0 {
        law_no_text_comes_before_itself(text.drop_first());
    }
}

/// The position of the first of these texts that is `text`.
pub open spec fn first_named(list: Seq<Seq<char>>, text: Seq<char>) -> Option<int>
    decreases list.len(),
{
    if list.len() == 0 {
        None
    } else {
        match first_named(list.drop_last(), text) {
            Some(i) => Some(i),
            None => if list.last() == text {
                Some(list.len() - 1)
            } else {
                None
            },
        }
    }
}

/// [`first_named`] is the least position at which the text stands, and `None`
/// where it stands nowhere.
pub proof fn lemma_first_named(list: Seq<Seq<char>>, text: Seq<char>)
    ensures
        match first_named(list, text) {
            Some(i) => {
                &&& 0 <= i < list.len()
                &&& list[i] == text
                &&& forall|j: int| 0 <= j < i ==> list[j] != text
            },
            None => forall|j: int| 0 <= j < list.len() ==> list[j] != text,
        },
    decreases list.len(),
{
    if list.len() > 0 {
        lemma_first_named(list.drop_last(), text);
        assert forall|j: int| 0 <= j < list.len() - 1 implies list.drop_last()[j] == list[j] by {}
    }
}

/// Where a text stands first in a list, if every earlier element differs.
pub proof fn lemma_first_named_is(list: Seq<Seq<char>>, text: Seq<char>, at: int)
    requires
        0 <= at < list.len(),
        list[at] == text,
        forall|j: int| 0 <= j < at ==> list[j] != text,
    ensures
        first_named(list, text) == Some(at),
{
    lemma_first_named(list, text);
}

/// The characters of a text.
pub fn chars_of(text: &str) -> (r: Vec<char>)
    ensures
        r@ == text@,
{
    let mut out: Vec<char> = Vec::new();
    for c in it: text.chars()
        invariant
            out@ == it.seq().take(it.index()),
            it.seq() == text@,
    {
        out.push(c);
    }
    out
}

/// A part of the characters, as a text.
pub fn string_of_range(chars: &Vec<char>, from: usize, to: usize) -> (r: String)
    requires
        from <= to <= chars.len(),
    ensures
        r@ == chars@.subrange(from as int, to as int),
{
    let mut out = String::new();
    let mut i: usize = from;
    while i < to
        invariant
            from <= i <= to <= chars.len(),
            out@ == chars@.subrange(from as int, i as int),
        decreases to - i,
    {
        out.push(chars[i]);
        i = i + 1;
        assert(chars@.subrange(from as int, i as int) == chars@.subrange(
            from as int,
            i - 1,
        ).push(chars@[i - 1]));
    }
    out
}

/// Two texts, one after the other.
pub fn cat(a: &str, b: &str) -> (r: String)
    ensures
        r@ == a@ + b@,
{
    let mut out = a.to_owned();
    out.append(b);
    out
}

/// Three texts, one after the other.
pub fn cat3(a: &str, b: &str, c: &str) -> (r: String)
    ensures
        r@ == a@ + b@ + c@,
{
    let mut out = cat(a, b);
    out.append(c);
    out
}

/// Four texts, one after the other.
pub fn cat4(a: &str, b: &str, c: &str, d: &str) -> (r: String)
    ensures
        r@ == a@ + b@ + c@ + d@,
{
    let mut out = cat3(a, b, c);
    out.append(d);
    out
}

/// Five texts, one after the other.
pub fn cat5(a: &str, b: &str, c: &str, d: &str, e: &str) -> (r: String)
    ensures
        r@ == a@ + b@ + c@ + d@ + e@,
{
    let mut out = cat4(a, b, c, d);
    out.append(e);
    out
}

/// Six texts, one after the other.
pub fn cat6(a: &str, b: &str, c: &str, d: &str, e: &str, f: &str) -> (r: String)
    ensures
        r@ == a@ + b@ + c@ + d@ + e@ + f@,
{
    let mut out = cat5(a, b, c, d, e);
    out.append(f);
    out
}

/// Whether two texts are the same.
pub fn same(a: &str, b: &str) -> (r: bool)
    ensures
        r == (a@ == b@),
{
    let x = chars_of(a);
    let y = chars_of(b);
    if x.len() != y.len() {
        return false;
    }
    let mut i: usize = 0;
    while i < x.len()
        invariant
            i <= x.len(),
            x.len() == y.len(),
            x@ == a@,
            y@ == b@,
            forall|j: int| 0 <= j < i ==> x@[j] == y@[j],
        decreases x.len() - i,
    {
        if x[i] != y[i] {
            assert(x@[i as int] != y@[i as int]);
            return false;
        }
        i = i + 1;
    }
    assert(x@ =~= y@);
    true
}

/// Whether `c` is a control character.
pub fn is_control(c: char) -> (r: bool)
    ensures
        r == control(c),
{
    let n: u32 = c as u32;
    n <= 0x1f || (0x7f <= n && n <= 0x9f)
}

/// Whether `c` is white space.
pub fn is_white(c: char) -> (r: bool)
    ensures
        r == white(c),
{
    let n: u32 = c as u32;
    (0x09 <= n && n <= 0x0d) || n == 0x20 || n == 0x85 || n == 0xa0 || n == 0x1680 || (0x2000 <= n
        && n <= 0x200a) || n == 0x2028 || n == 0x2029 || n == 0x202f || n == 0x205f || n == 0x3000
}

/// Control characters (ESC, BEL, CR games) become spaces; everything else
/// passes through.
pub fn sanitize(text: &str) -> (r: String)
    ensures
        r@ == sanitized(text@),
{
    let chars = chars_of(text);
    let mut out = String::new();
    let mut i: usize = 0;
    while i < chars.len()
        invariant
            i <= chars.len(),
            chars@ == text@,
            out@ == sanitized(text@).take(i as int),
        decreases chars.len() - i,
    {
        let c = chars[i];
        out.push(
            if is_control(c) {
                ' '
            } else {
                c
            },
        );
        i = i + 1;
        assert(sanitized(text@).take(i as int) == sanitized(text@).take(i - 1).push(
            sanitized_char(c),
        ));
    }
    assert(sanitized(text@).take(i as int) == sanitized(text@));
    out
}

/// The words of a text, white space between them dropped.
pub fn words(text: &str) -> (r: Vec<String>)
    ensures
        texts(r@) == words_of(text@),
{
    let chars = chars_of(text);
    let mut out: Vec<String> = Vec::new();
    let mut word = String::new();
    let mut i: usize = 0;
    assert(chars@.take(0) == Seq::<char>::empty());
    while i < chars.len()
        invariant
            i <= chars.len(),
            chars@ == text@,
            word@.len() == 0 <==> (i == 0 || white(chars@[i - 1])),
            words_of(chars@.take(i as int)) == if word@.len() == 0 {
                texts(out@)
            } else {
                texts(out@).push(word@)
            },
        decreases chars.len() - i,
    {
        let c = chars[i];
        let ghost before = texts(out@);
        assert(chars@.take(i + 1).drop_last() == chars@.take(i as int));
        assert(chars@.take(i + 1).last() == c);
        assert(i > 0 ==> chars@.take(i + 1)[chars@.take(i + 1).len() - 2] == chars@[i - 1]);
        if is_white(c) {
            if !word.as_str().is_empty() {
                let ghost done = word@;
                out.push(word);
                word = String::new();
                assert(texts(out@) =~= before.push(done));
            }
        } else {
            let ghost was = word@;
            word.push(c);
            proof {
                if was.len() == 0 {
                    assert(word@ =~= seq![c]);
                } else {
                    assert(before.push(was).update(before.len() as int, was.push(c))
                        =~= before.push(was.push(c)));
                }
            }
        }
        i = i + 1;
    }
    assert(chars@.take(i as int) == text@);
    if !word.as_str().is_empty() {
        let ghost before = texts(out@);
        let ghost done = word@;
        out.push(word);
        assert(texts(out@) =~= before.push(done));
    }
    out
}

/// The parts with `sep` between each two.
pub fn join(parts: &Vec<String>, sep: &str) -> (r: String)
    ensures
        r@ == joined(texts(parts@), sep@),
{
    let mut out = String::new();
    let mut i: usize = 0;
    while i < parts.len()
        invariant
            i <= parts.len(),
            out@ == joined(texts(parts@).take(i as int), sep@),
        decreases parts.len() - i,
    {
        let ghost all = texts(parts@);
        assert(all.take(i + 1).drop_last() == all.take(i as int));
        assert(all.take(i + 1).last() == all[i as int]);
        if i > 0 {
            out.append(sep);
        } else {
            assert(out@ + all[0] =~= all[0]);
        }
        out.append(parts[i].as_str());
        i = i + 1;
    }
    assert(texts(parts@).take(i as int) == texts(parts@));
    out
}

/// The lines of a text.
pub fn lines(text: &str) -> (r: Vec<String>)
    ensures
        texts(r@) == lines_of(text@),
{
    let chars = chars_of(text);
    let mut out: Vec<String> = Vec::new();
    let mut from: usize = 0;
    let mut i: usize = 0;
    assert(chars@.take(0) == Seq::<char>::empty());
    while i < chars.len()
        invariant
            from <= i <= chars.len(),
            chars@ == text@,
            texts(out@) == closed_lines(chars@.take(i as int)),
            chars@.subrange(from as int, i as int) == open_line(chars@.take(i as int)),
        decreases chars.len() - i,
    {
        let c = chars[i];
        let ghost line = chars@.subrange(from as int, i as int);
        assert(chars@.take(i + 1).drop_last() == chars@.take(i as int));
        assert(chars@.take(i + 1).last() == c);
        if c == '\n' {
            let ghost before = texts(out@);
            let mut to: usize = i;
            if from < i && chars[i - 1] == '\r' {
                to = i - 1;
                assert(chars@.subrange(from as int, to as int) =~= line.drop_last());
            }
            out.push(string_of_range(&chars, from, to));
            assert(texts(out@) =~= before.push(without_return(line)));
            from = i + 1;
            assert(chars@.subrange(from as int, i + 1) =~= Seq::<char>::empty());
        } else {
            assert(chars@.subrange(from as int, i + 1) =~= line.push(c));
        }
        i = i + 1;
    }
    assert(chars@.take(i as int) == text@);
    if from < chars.len() {
        let ghost before = texts(out@);
        out.push(string_of_range(&chars, from, i));
        assert(texts(out@) =~= before.push(open_line(text@)));
    }
    out
}

/// Whether `part` stands in these characters at position `at`.
fn part_at(text: &Vec<char>, part: &Vec<char>, at: usize) -> (r: bool)
    requires
        at + part.len() <= text.len(),
    ensures
        r == stands_at(text@, part@, at as int),
{
    let mut i: usize = 0;
    while i < part.len()
        invariant
            i <= part.len(),
            at + part.len() <= text.len(),
            forall|j: int| 0 <= j < i ==> text@[at + j] == part@[j],
        decreases part.len() - i,
    {
        if text[at + i] != part[i] {
            assert(text@.subrange(at as int, at + part.len())[i as int] != part@[i as int]);
            return false;
        }
        i = i + 1;
    }
    assert(text@.subrange(at as int, at + part.len()) =~= part@);
    true
}

/// Whether the text begins with `part`.
pub fn starts_with(text: &str, part: &str) -> (r: bool)
    ensures
        r == stands_at(text@, part@, 0),
{
    let t = chars_of(text);
    let p = chars_of(part);
    if p.len() > t.len() {
        return false;
    }
    part_at(&t, &p, 0)
}

/// Whether `part` stands somewhere in the text.
pub fn contains(text: &str, part: &str) -> (r: bool)
    ensures
        r == holds_part(text@, part@),
{
    let t = chars_of(text);
    let p = chars_of(part);
    if p.len() > t.len() {
        return false;
    }
    let last: usize = t.len() - p.len();
    let mut at: usize = 0;
    while at <= last
        invariant
            t@ == text@,
            p@ == part@,
            last == t.len() - p.len(),
            at <= last + 1,
            forall|j: int| 0 <= j < at ==> !stands_at(text@, part@, j),
        decreases last + 1 - at,
    {
        if part_at(&t, &p, at) {
            return true;
        }
        if at == last {
            return false;
        }
        at = at + 1;
    }
    false
}

/// A copy of a list of strings.
pub fn copied(v: &Vec<String>) -> (r: Vec<String>)
    ensures
        r@ == v@,
{
    let mut out: Vec<String> = Vec::new();
    let mut i: usize = 0;
    while i < v.len()
        invariant
            i <= v.len(),
            out@ == v@.take(i as int),
        decreases v.len() - i,
    {
        out.push(v[i].clone());
        i = i + 1;
        assert(v@.take(i as int) == v@.take(i - 1).push(v@[i - 1]));
    }
    assert(v@.take(i as int) == v@);
    out
}

/// Sanitizing keeps the length, leaves no control character, and leaves alone
/// a text that holds none.
pub proof fn law_sanitized_is_clean(text: Seq<char>)
    ensures
        sanitized(text).len() == text.len(),
        forall|i: int| 0 <= i < text.len() ==> !control(#[trigger] sanitized(text)[i]),
        (forall|i: int| 0 <= i < text.len() ==> !control(text[i])) ==> sanitized(text) == text,
{
    if forall|i: int| 0 <= i < text.len() ==> !control(text[i]) {
        assert(sanitized(text) =~= text);
    }
}

/// Sanitizing twice is sanitizing once.
pub proof fn law_sanitize_is_idempotent(text: Seq<char>)
    ensures
        sanitized(sanitized(text)) == sanitized(text),
{
    law_sanitized_is_clean(text);
    law_sanitized_is_clean(sanitized(text));
}

/// A text that is not empty and holds no white space.
pub open spec fn is_word(text: Seq<char>) -> bool {
    text.len() > 0 && forall|j: int| 0 <= j < text.len() ==> !white(#[trigger] text[j])
}

/// Each of the words of a text is one: not empty, and without white space.
pub proof fn law_words_hold_no_white(text: Seq<char>)
    ensures
        forall|i: int| 0 <= i < words_of(text).len() ==> is_word(#[trigger] words_of(text)[i]),
        text.len() > 0 && !white(text.last()) ==> words_of(text).len() > 0,
    decreases text.len(),
{
    if text.len() > 0 {
        let before = words_of(text.drop_last());
        law_words_hold_no_white(text.drop_last());
        assert forall|i: int| 0 <= i < words_of(text).len() implies is_word(
            #[trigger] words_of(text)[i],
        ) by {
            if i < before.len() {
                assert(is_word(before[i]));
            }
        }
    }
}

/// A word alone is its own only word.
pub proof fn law_word_is_its_own_words(text: Seq<char>)
    requires
        is_word(text),
    ensures
        words_of(text) == seq![text],
    decreases text.len(),
{
    if text.len() == 1 {
        assert(words_of(text.drop_last()) =~= Seq::<Seq<char>>::empty());
        assert(seq![text.last()] =~= text);
    } else {
        law_word_is_its_own_words(text.drop_last());
        assert(text.drop_last().push(text.last()) =~= text);
        assert(!white(text[text.len() - 2]));
    }
}

proof fn lemma_next_word(text: Seq<char>, word: Seq<char>)
    requires
        text.len() == 0 || white(text.last()),
        is_word(word),
    ensures
        words_of(text + word) == words_of(text).push(word),
    decreases word.len(),
{
    let all = text + word;
    let rest = word.drop_last();
    assert(all.drop_last() =~= text + rest);
    assert(rest.push(word.last()) =~= word);
    assert(!white(all.last()));
    if word.len() == 1 {
        assert(text + rest =~= text);
        assert(seq![all.last()] =~= word);
    } else {
        assert(!white(word[word.len() - 2]));
        lemma_next_word(text, rest);
        assert(words_of(all) =~= words_of(text).push(word));
    }
}

/// Words joined with a space between each two read back as the same words.
pub proof fn law_joined_words_read_back(parts: Seq<Seq<char>>)
    requires
        forall|i: int| 0 <= i < parts.len() ==> is_word(#[trigger] parts[i]),
    ensures
        words_of(joined(parts, " "@)) == parts,
    decreases parts.len(),
{
    reveal_strlit(" ");
    if parts.len() == 0 {
        assert(parts =~= Seq::<Seq<char>>::empty());
    } else if parts.len() == 1 {
        law_word_is_its_own_words(parts[0]);
        assert(parts =~= seq![parts[0]]);
    } else {
        let before = joined(parts.drop_last(), " "@);
        law_joined_words_read_back(parts.drop_last());
        let open = before + " "@;
        assert(open.drop_last() =~= before);
        assert(white(open.last()));
        lemma_next_word(open, parts.last());
        assert(parts.drop_last().push(parts.last()) =~= parts);
    }
}

/// Sanitized text is the text, character by character, with a space for each
/// control character.
pub proof fn law_sanitizing_replaces_controls_alone(text: &str, r: String, i: int)
    requires
        call_ensures(sanitize, (text,), r),
        0 <= i < text@.len(),
    ensures
        r@.len() == text@.len(),
        text@[i] as u32 <= 0x1f || (0x7f <= text@[i] as u32 && text@[i] as u32 <= 0x9f) ==> r@[i]
            == ' ',
        0x20 <= text@[i] as u32 && text@[i] as u32 <= 0x7e ==> r@[i] == text@[i],
        text@[i] as u32 >= 0xa0 ==> r@[i] == text@[i],
{
}

/// Two texts are the same exactly where their characters are, and a copied list
/// is the list.
pub proof fn law_sameness_is_equality(a: &str, b: &str, r: bool, list: Vec<String>, copy: Vec<String>)
    requires
        call_ensures(same, (a, b), r),
        call_ensures(copied, (&list,), copy),
    ensures
        r <==> a@ == b@,
        copy@ == list@,
{
}

/// White space between two texts separates their words: the words of the whole
/// are those of the first, then those of the second.
pub proof fn law_white_space_separates_words(a: Seq<char>, c: char, b: Seq<char>)
    requires
        white(c),
    ensures
        words_of(a.push(c) + b) == words_of(a) + words_of(b),
        words_of(a.push(c)) == words_of(a),
    decreases b.len(),
{
    let head = a.push(c);
    assert(head.drop_last() =~= a);
    if b.len() == 0 {
        assert(head + b =~= head);
        assert(words_of(a) + words_of(b) =~= words_of(a));
    } else {
        let all = head + b;
        let front = b.drop_last();
        law_white_space_separates_words(a, c, front);
        assert(all.drop_last() =~= head + front);
        assert(all.last() == b.last());
        law_words_hold_no_white(front);
        if b.len() == 1 {
            assert(all[all.len() - 2] == c);
            assert(front =~= Seq::empty());
        } else {
            assert(all[all.len() - 2] == b[b.len() - 2]);
            assert(front.last() == b[b.len() - 2]);
        }
        assert(words_of(all) =~= words_of(a) + words_of(b));
    }
}

/// A space, a tab and a line end are white space; a printable ASCII character is
/// not, and is no control character either.
pub proof fn law_white_and_control_characters(c: char, is_ws: bool, is_ctl: bool)
    requires
        call_ensures(is_white, (c,), is_ws),
        call_ensures(is_control, (c,), is_ctl),
    ensures
        0x21 <= c as u32 && c as u32 <= 0x7e ==> !is_ws && !is_ctl,
        c == ' ' ==> is_ws && !is_ctl,
        c == '\t' || c == '\n' || c == '\r' ==> is_ws && is_ctl,
        c as u32 <= 0x1f || c as u32 == 0x7f ==> is_ctl,
        c as u32 > 0x9f ==> !is_ctl,
        is_ctl && is_ws ==> (0x09 <= c as u32 && c as u32 <= 0x0d) || c as u32 == 0x85,
{
}

/// The words that were read are the text's own, in order: put together they are
/// its characters without the white space.
pub proof fn law_words_lose_only_white_space(text: &str, r: Vec<String>)
    requires
        call_ensures(words, (text,), r),
    ensures
        joined(texts(r@), Seq::empty()) == text@.filter(|c: char| !white(c)),
        forall|i: int| 0 <= i < r.len() ==> is_word((#[trigger] r@[i])@),
{
    law_words_hold_no_white(text@);
    lemma_words_kept(text@);
    assert forall|i: int| 0 <= i < r.len() implies is_word((#[trigger] r@[i])@) by {
        assert(is_word(words_of(text@)[i]));
    }
}

proof fn lemma_joined_last(parts: Seq<Seq<char>>)
    requires
        parts.len() > 0,
    ensures
        joined(parts, Seq::empty()) == joined(parts.drop_last(), Seq::empty()) + parts.last(),
{
    if parts.len() == 1 {
        assert(parts.drop_last() =~= Seq::empty());
        assert(joined(parts.drop_last(), Seq::empty()) + parts.last() =~= parts[0]);
    } else {
        let before = joined(parts.drop_last(), Seq::<char>::empty());
        assert(before + Seq::<char>::empty() + parts.last() =~= before + parts.last());
    }
}

proof fn lemma_words_kept(text: Seq<char>)
    ensures
        joined(words_of(text), Seq::empty()) == text.filter(|c: char| !white(c)),
    decreases text.len(),
{
    let keep = |c: char| !white(c);
    reveal(Seq::filter);
    if text.len() == 0 {
        assert(text.filter(keep) =~= Seq::empty());
    } else {
        let before = words_of(text.drop_last());
        let all = words_of(text);
        lemma_words_kept(text.drop_last());
        law_words_hold_no_white(text.drop_last());
        if !white(text.last()) {
            lemma_joined_last(all);
            if text.len() == 1 || white(text[text.len() - 2]) {
                assert(all.drop_last() =~= before);
                assert(joined(before, Seq::empty()) + seq![text.last()] =~= joined(
                    before,
                    Seq::empty(),
                ).push(text.last()));
            } else {
                assert(text.drop_last().last() == text[text.len() - 2]);
                assert(before.len() > 0);
                lemma_joined_last(before);
                assert(all.drop_last() =~= before.drop_last());
                assert(all.last() == before.last().push(text.last()));
                assert(joined(all, Seq::empty()) =~= joined(before, Seq::empty()).push(
                    text.last(),
                ));
            }
        }
    }
}

/// A line feed ends a line: the lines of two texts in a row, the first of them
/// closed, are those of the first, then those of the second.
pub proof fn law_a_line_feed_ends_a_line(a: Seq<char>, b: Seq<char>)
    ensures
        lines_of(a.push('\n') + b) == lines_of(a.push('\n')) + lines_of(b),
        open_line(a.push('\n') + b) == open_line(b),
        closed_lines(a.push('\n') + b) == closed_lines(a.push('\n')) + closed_lines(b),
    decreases b.len(),
{
    let head = a.push('\n');
    let all = head + b;
    assert(open_line(head) =~= Seq::empty());
    if b.len() == 0 {
        assert(all =~= head);
        assert(closed_lines(head) + closed_lines(b) =~= closed_lines(head));
    } else {
        law_a_line_feed_ends_a_line(a, b.drop_last());
        assert(all.drop_last() =~= head + b.drop_last());
        assert(all.last() == b.last());
        assert(closed_lines(all) =~= closed_lines(head) + closed_lines(b));
    }
    assert(lines_of(all) =~= lines_of(head) + lines_of(b));
}

/// A text without a line feed is one line, or none where it is empty; the line
/// feed that ends it does not count, nor does a carriage return before that.
pub proof fn law_a_line_is_its_own_line(text: &str, closed: &str, open: Vec<String>, ended: Vec<String>)
    requires
        !text@.contains('\n'),
        closed@ == text@.push('\n'),
        call_ensures(lines, (text,), open),
        call_ensures(lines, (closed,), ended),
    ensures
        text@.len() == 0 ==> open.len() == 0,
        text@.len() > 0 ==> open.len() == 1 && open@[0]@ == text@,
        ended.len() == 1,
        text@.len() == 0 || text@.last() != '\r' ==> ended@[0]@ == text@,
        text@.len() > 0 && text@.last() == '\r' ==> ended@[0]@ == text@.drop_last(),
{
    lemma_open_line(text@);
    assert(closed@.drop_last() =~= text@);
    assert(texts(open@).len() == open.len());
    assert(texts(ended@).len() == ended.len());
    assert(open_line(closed@) =~= Seq::empty());
    if text@.len() > 0 {
        assert(texts(open@)[0] == text@);
    }
    assert(texts(ended@)[0] == without_return(text@));
}

proof fn lemma_open_line(text: Seq<char>)
    requires
        !text.contains('\n'),
    ensures
        open_line(text) == text,
        closed_lines(text) == Seq::<Seq<char>>::empty(),
    decreases text.len(),
{
    if text.len() > 0 {
        let front = text.drop_last();
        assert(text.contains(text[text.len() - 1]));
        assert forall|i: int| 0 <= i < front.len() implies front[i] != '\n' by {
            assert(text.contains(text[i]));
        }
        lemma_open_line(front);
        assert(front.push(text.last()) =~= text);
    } else {
        assert(open_line(text) =~= text);
    }
}

/// A joined list begins with its first part and ends with its last, and the
/// separator stands between two lists joined in a row.
pub proof fn law_joining_keeps_the_order(a: Seq<Seq<char>>, b: Seq<Seq<char>>, sep: Seq<char>)
    requires
        a.len() > 0,
        b.len() > 0,
    ensures
        joined(a + b, sep) == joined(a, sep) + sep + joined(b, sep),
        joined(seq![a[0]], sep) == a[0],
    decreases b.len(),
{
    assert((a + b).drop_last() =~= a + b.drop_last());
    assert((a + b).last() == b.last());
    if b.len() == 1 {
        assert(a + b.drop_last() =~= a);
        assert(joined(a + b, sep) =~= joined(a, sep) + sep + joined(b, sep));
    } else {
        law_joining_keeps_the_order(a, b.drop_last(), sep);
        assert(joined(a + b, sep) =~= joined(a, sep) + sep + joined(b, sep));
    }
}

/// A text holds a part exactly where it is made of something, the part, and
/// something more; it starts with it where there is nothing before.
pub proof fn law_a_part_is_found_where_it_stands(
    before: Seq<char>,
    part: &str,
    after: Seq<char>,
    text: &str,
    found: bool,
    first: bool,
)
    requires
        call_ensures(contains, (text, part), found),
        call_ensures(starts_with, (text, part), first),
    ensures
        text@ == before + part@ + after ==> found && (before.len() == 0 ==> first),
        found ==> exists|at: int|
            0 <= at && at + part@.len() <= text@.len() && #[trigger] text@.subrange(
                at,
                at + part@.len(),
            ) == part@,
        first ==> part@.len() <= text@.len() && text@.take(part@.len() as int) == part@,
{
    if text@ == before + part@ + after {
        let at = before.len() as int;
        assert(text@.subrange(at, at + part@.len()) =~= part@);
        assert(stands_at(text@, part@, at));
    }
    if found {
        let at = choose|at: int| stands_at(text@, part@, at);
        assert(text@.subrange(at, at + part@.len()) == part@);
    }
    if first {
        assert(text@.take(part@.len() as int) =~= text@.subrange(0, part@.len() as int));
    }
}

} // verus!
