//! Sub- and superscript text.
//!
//! The text is set smaller and its baseline is moved. Where every character
//! has a dedicated sub- or superscript form and the font has a glyph for each
//! of these, the text is rewritten to those forms instead.

use vstd::prelude::*;
use crate::content::{Content, ContentView, Style};
use crate::font::Coverage;
use crate::length::Em;

verus! {

/// A category of script.
pub type ScriptKind = usize;

/// Text that is set smaller and raised, also known as superior.
pub const SUPERSCRIPT: ScriptKind = 0;

/// Text that is set smaller and lowered, also known as inferior.
pub const SUBSCRIPT: ScriptKind = 1;

/// Calls `char::from_u32`. Trusted: the result is the character with the
/// given code, and `None` where the code is a surrogate or lies above the
/// last code point.
#[verifier::external_body]
fn from_u32(code: u32) -> (c: Option<char>)
    ensures
        c == (if code <= 0xD7FF || (0xE000 <= code && code <= 0x10FFFF) {
            Some(code as char)
        } else {
            None
        }),
{
    char::from_u32(code)
}

/// Calls `String::push`. Trusted: afterwards the string holds the characters
/// it held before, followed by the one given.
#[verifier::external_body]
fn push_char(s: &mut String, c: char)
    ensures
        final(s)@ == old(s)@.push(c),
{
    s.push(c)
}

/// The superscript form of a character, where it has one. A space is its own.
pub open spec fn superscript_of(c: char) -> Option<char> {
    if c == '0' {
        Some('\u{2070}')
    } else if c == '1' {
        Some('\u{00B9}')
    } else if c == '2' {
        Some('\u{00B2}')
    } else if c == '3' {
        Some('\u{00B3}')
    } else if c == '4' {
        Some('\u{2074}')
    } else if c == '5' {
        Some('\u{2075}')
    } else if c == '6' {
        Some('\u{2076}')
    } else if c == '7' {
        Some('\u{2077}')
    } else if c == '8' {
        Some('\u{2078}')
    } else if c == '9' {
        Some('\u{2079}')
    } else if c == '+' {
        Some('\u{207A}')
    } else if c == '-' {
        Some('\u{207B}')
    } else if c == '=' {
        Some('\u{207C}')
    } else if c == '(' {
        Some('\u{207D}')
    } else if c == ')' {
        Some('\u{207E}')
    } else if c == 'n' {
        Some('\u{207F}')
    } else if c == 'i' {
        Some('\u{2071}')
    } else if c == ' ' {
        Some(' ')
    } else {
        None
    }
}

/// The subscript form of a character, where it has one. A space is its own.
pub open spec fn subscript_of(c: char) -> Option<char> {
    if c == '0' {
        Some('\u{2080}')
    } else if c == '1' {
        Some('\u{2081}')
    } else if c == '2' {
        Some('\u{2082}')
    } else if c == '3' {
        Some('\u{2083}')
    } else if c == '4' {
        Some('\u{2084}')
    } else if c == '5' {
        Some('\u{2085}')
    } else if c == '6' {
        Some('\u{2086}')
    } else if c == '7' {
        Some('\u{2087}')
    } else if c == '8' {
        Some('\u{2088}')
    } else if c == '9' {
        Some('\u{2089}')
    } else if c == '+' {
        Some('\u{208A}')
    } else if c == '-' {
        Some('\u{208B}')
    } else if c == '=' {
        Some('\u{208C}')
    } else if c == '(' {
        Some('\u{208D}')
    } else if c == ')' {
        Some('\u{208E}')
    } else if c == 'a' {
        Some('\u{2090}')
    } else if c == 'e' {
        Some('\u{2091}')
    } else if c == 'o' {
        Some('\u{2092}')
    } else if c == 'x' {
        Some('\u{2093}')
    } else if c == 'h' {
        Some('\u{2095}')
    } else if c == 'k' {
        Some('\u{2096}')
    } else if c == 'l' {
        Some('\u{2097}')
    } else if c == 'm' {
        Some('\u{2098}')
    } else if c == 'n' {
        Some('\u{2099}')
    } else if c == 'p' {
        Some('\u{209A}')
    } else if c == 's' {
        Some('\u{209B}')
    } else if c == 't' {
        Some('\u{209C}')
    } else if c == ' ' {
        Some(' ')
    } else {
        None
    }
}

/// The form of a character in a kind of script: its superscript form for
/// superscript, its subscript form for any other kind.
pub open spec fn script_of(c: char, mode: ScriptKind) -> Option<char> {
    if mode == SUPERSCRIPT {
        superscript_of(c)
    } else {
        subscript_of(c)
    }
}

/// A text in a kind of script: each character in its form, where every
/// character has one.
pub open spec fn converted(text: Seq<char>, mode: ScriptKind) -> Option<Seq<char>> {
    if forall|i: int| 0 <= i < text.len() ==> (#[trigger] script_of(text[i], mode)) is Some {
        Some(Seq::new(text.len(), |i: int| script_of(text[i], mode)->0))
    } else {
        None
    }
}

/// The text of content in a kind of script, where the content is made of
/// nothing but text, spaces and nothing, and any text in it can be converted.
pub open spec fn searched(content: ContentView, mode: ScriptKind) -> Option<Seq<char>>
    decreases content, 0nat,
{
    match content {
        ContentView::Text(text) => converted(text, mode),
        ContentView::Space => Some(seq![' ']),
        ContentView::Empty => Some(Seq::empty()),
        ContentView::Sequence(items) => joined(items, mode, items.len()),
        _ => None,
    }
}

/// The texts of the first `n` pieces, one after the other, where each has one.
pub open spec fn joined(items: Seq<ContentView>, mode: ScriptKind, n: nat) -> Option<Seq<char>>
    decreases items, n,
{
    if n == 0 || n > items.len() {
        Some(Seq::empty())
    } else {
        match (joined(items, mode, (n - 1) as nat), searched(items[n - 1], mode)) {
            (Some(before), Some(text)) => Some(before + text),
            _ => None,
        }
    }
}

/// Once some piece has no text, no longer list of pieces has one.
pub proof fn lemma_joined_none(items: Seq<ContentView>, mode: ScriptKind, k: nat, n: nat)
    requires
        k <= n <= items.len(),
        joined(items, mode, k) is None,
    ensures
        joined(items, mode, n) is None,
    decreases n,
{
    if k < n {
        lemma_joined_none(items, mode, k, (n - 1) as nat);
    }
}

/// Whether the first family that a font could be retrieved for has a glyph
/// for every character of the text. Each entry stands for one family, in
/// their order: what the font retrieved for it covers, or `None` where none
/// could be retrieved. The text can be shaped only where each coverage tells
/// of every character of the text.
pub open spec fn shapable(families: Seq<Option<Coverage>>, text: Seq<char>) -> bool
    decreases families.len(),
{
    if families.len() == 0 {
        false
    } else {
        match families[0] {
            Some(covered) => forall|i: int|
                0 <= i < text.len() ==> #[trigger] covered.covers(text[i]),
            None => shapable(families.drop_first(), text),
        }
    }
}

/// Convert a character to its corresponding Unicode superscript.
pub fn to_superscript_codepoint(c: char) -> (r: Option<char>)
    ensures
        r == superscript_of(c),
{
    let code: u32 = if c == '0' {
        0x2070
    } else if c == '1' {
        0x00B9
    } else if c == '2' {
        0x00B2
    } else if c == '3' {
        0x00B3
    } else if '4' <= c && c <= '9' {
        0x2070 + (c as u32 + 4 - '4' as u32)
    } else if c == '+' {
        0x207A
    } else if c == '-' {
        0x207B
    } else if c == '=' {
        0x207C
    } else if c == '(' {
        0x207D
    } else if c == ')' {
        0x207E
    } else if c == 'n' {
        0x207F
    } else if c == 'i' {
        0x2071
    } else if c == ' ' {
        0x0020
    } else {
        return None;
    };
    from_u32(code)
}

/// Convert a character to its corresponding Unicode subscript.
pub fn to_subscript_codepoint(c: char) -> (r: Option<char>)
    ensures
        r == subscript_of(c),
{
    let code: u32 = if c == '0' {
        0x2080
    } else if '1' <= c && c <= '9' {
        0x2080 + (c as u32 - '0' as u32)
    } else if c == '+' {
        0x208A
    } else if c == '-' {
        0x208B
    } else if c == '=' {
        0x208C
    } else if c == '(' {
        0x208D
    } else if c == ')' {
        0x208E
    } else if c == 'a' {
        0x2090
    } else if c == 'e' {
        0x2091
    } else if c == 'o' {
        0x2092
    } else if c == 'x' {
        0x2093
    } else if c == 'h' {
        0x2095
    } else if c == 'k' {
        0x2096
    } else if c == 'l' {
        0x2097
    } else if c == 'm' {
        0x2098
    } else if c == 'n' {
        0x2099
    } else if c == 'p' {
        0x209A
    } else if c == 's' {
        0x209B
    } else if c == 't' {
        0x209C
    } else if c == ' ' {
        0x0020
    } else {
        return None;
    };
    from_u32(code)
}

/// Convert a string to sub- or superscript codepoints if all characters
/// can be mapped to such a codepoint.
pub fn convert_script(text: &str, mode: ScriptKind) -> (r: Option<String>)
    ensures
        r is Some == converted(text@, mode) is Some,
        r matches Some(s) ==> Some(s@) == converted(text@, mode),
{
    broadcast use vstd::string::axiom_spec_iter;

    let mut result = String::new();
    for c in it: text.chars()
        invariant
            it.seq() == text@,
            result@.len() == it.index(),
            forall|j: int|
                0 <= j < it.index() ==> #[trigger] script_of(text@[j], mode) == Some(result@[j]),
    {
        let converted = if mode == SUPERSCRIPT {
            to_superscript_codepoint(c)
        } else {
            to_subscript_codepoint(c)
        };
        match converted {
            Some(c) => push_char(&mut result, c),
            None => {
                assert(script_of(text@[it.index()], mode) is None);
                return None;
            },
        }
    }
    assert(result@ =~= converted(text@, mode)->0);
    Some(result)
}

/// Find and transform the text contained in `content` to the given script
/// kind if and only if it only consists of text, spaces and nothing.
pub fn search_text(content: &Content, mode: ScriptKind) -> (r: Option<String>)
    ensures
        r is Some == searched(content@, mode) is Some,
        r matches Some(s) ==> Some(s@) == searched(content@, mode),
    decreases content,
{
    match content {
        Content::Text(text) => convert_script(text.as_str(), mode),
        Content::Space => {
            let mut space = String::new();
            push_char(&mut space, ' ');
            assert(space@ =~= seq![' ']);
            Some(space)
        },
        Content::Empty => Some(String::new()),
        Content::Sequence(items) => {
            let mut full = String::new();
            let ghost views = content@->Sequence_0;
            let mut i: usize = 0;
            while i < items.len()
                invariant
                    i <= items@.len(),
                    *content == Content::Sequence(*items),
                    views == content@->Sequence_0,
                    views.len() == items@.len(),
                    forall|j: int| 0 <= j < items@.len() ==> views[j] == (#[trigger] items@[j])@,
                    joined(views, mode, i as nat) == Some(full@),
                decreases items@.len() - i,
            {
                proof {
                    let inner = content->Sequence_0;
                    assert(decreases_to!(*content => inner));
                    assert(decreases_to!(inner => inner@));
                    assert(decreases_to!(inner@ => inner@[i as int]));
                }
                match search_text(&items[i], mode) {
                    Some(text) => full.append(text.as_str()),
                    None => {
                        proof {
                            assert(searched(views[i as int], mode) is None);
                            assert(joined(views, mode, (i + 1) as nat) is None);
                            lemma_joined_none(views, mode, (i + 1) as nat, views.len());
                        }
                        return None;
                    },
                }
                i += 1;
            }
            Some(full)
        },
        _ => None,
    }
}

/// Checks whether the first retrievable family contains all code points of
/// the given string. `families` holds, for each family in their order, what
/// the font retrieved for it covers, or `None` where none could be retrieved.
pub fn is_shapable(families: &Vec<Option<Coverage>>, text: &str) -> (r: bool)
    ensures
        r == shapable(families@, text@),
{
    broadcast use vstd::string::axiom_spec_iter;

    let mut k: usize = 0;
    assert(families@.subrange(0, families@.len() as int) =~= families@);
    while k < families.len()
        invariant
            k <= families@.len(),
            shapable(families@, text@) == shapable(
                families@.subrange(k as int, families@.len() as int),
                text@,
            ),
        decreases families@.len() - k,
    {
        let ghost rest = families@.subrange(k as int, families@.len() as int);
        assert(rest[0] == families@[k as int]);
        assert(rest.drop_first() =~= families@.subrange(k + 1, families@.len() as int));
        match &families[k] {
            Some(covered) => {
                assert(shapable(rest, text@) == (forall|j: int|
                    0 <= j < text@.len() ==> #[trigger] covered.covers(text@[j])));
                for c in it: text.chars()
                    invariant
                        it.seq() == text@,
                        shapable(families@, text@) == (forall|j: int|
                            0 <= j < text@.len() ==> #[trigger] covered.covers(text@[j])),
                        forall|j: int|
                            0 <= j < it.index() ==> #[trigger] covered.covers(text@[j]),
                {
                    if !covered.has_glyph(c) {
                        assert(!covered.covers(text@[it.index()]));
                        return false;
                    }
                }
                return true;
            },
            None => {},
        }
        k += 1;
    }
    assert(families@.subrange(k as int, families@.len() as int).len() == 0);
    false
}

/// How sub- and superscripts are set.
#[derive(Clone, Copy, Debug, PartialEq, Eq, Hash)]
pub struct ShiftStyles {
    /// Whether to prefer the dedicated sub- and superscript characters of the font.
    pub typographic: bool,
    /// The baseline shift for synthetic sub- and superscripts.
    pub baseline: Em,
    /// The font size for synthetic sub- and superscripts.
    pub size: Em,
}

/// Why an element could not be made from its arguments.
#[derive(Clone, Copy, Debug, PartialEq, Eq, Hash)]
pub enum ArgError {
    /// No positional argument was left for the named parameter.
    Missing(&'static str),
}

/// An argument to an element.
#[derive(Debug, PartialEq, Eq)]
pub struct Arg {
    /// The name of a named argument; `None` for a positional one.
    pub name: Option<String>,
    /// The content handed over.
    pub value: Content,
}

/// The arguments to an element that were not taken yet.
#[derive(Debug, PartialEq, Eq)]
pub struct Args {
    pub items: Vec<Arg>,
}

/// Whether the argument at `i` is the first positional one.
pub open spec fn is_first_positional(items: Seq<Arg>, i: int) -> bool {
    &&& 0 <= i < items.len()
    &&& items[i].name is None
    &&& forall|j: int| 0 <= j < i ==> (#[trigger] items[j]).name is Some
}

impl Args {
    /// Take the first positional argument.
    ///
    /// Fails, and leaves the arguments as they are, exactly where every
    /// argument is named.
    pub fn expect(&mut self, what: &'static str) -> (r: Result<Content, ArgError>)
        ensures
            match r {
                Ok(value) => exists|i: int|
                    #[trigger] is_first_positional(old(self).items@, i) && value == old(
                        self,
                    ).items@[i].value && final(self).items@ == old(self).items@.remove(i),
                Err(e) => e == ArgError::Missing(what) && *final(self) == *old(self) && forall|
                    j: int,
                |
                    0 <= j < old(self).items@.len() ==> (#[trigger] old(self).items@[j]).name is Some,
            },
    {
        let mut i: usize = 0;
        while i < self.items.len()
            invariant
                i <= self.items@.len(),
                *self == *old(self),
                forall|j: int| 0 <= j < i ==> (#[trigger] self.items@[j]).name is Some,
            decreases self.items@.len() - i,
        {
            if self.items[i].name.is_none() {
                assert(is_first_positional(old(self).items@, i as int));
                let arg = self.items.remove(i);
                return Ok(arg.value);
            }
            i += 1;
        }
        Err(ArgError::Missing(what))
    }
}

/// Sub- or superscript text, by the kind of script `S`.
#[derive(Debug, PartialEq, Eq)]
pub struct ShiftNode<const S: usize>(pub Content);

/// Shift the text into superscript.
pub type SuperNode = ShiftNode<SUPERSCRIPT>;

/// Shift the text into subscript.
pub type SubNode = ShiftNode<SUBSCRIPT>;

/// The styles that sub- and superscripts of a kind are set with unless others
/// are given: dedicated characters preferred; the baseline raised by half an
/// em for superscripts and lowered by a fifth for the others; three fifths of
/// the font size.
pub open spec fn default_styles(kind: ScriptKind) -> ShiftStyles {
    ShiftStyles {
        typographic: true,
        baseline: if kind == SUPERSCRIPT {
            Em { units: -1i32, per_em: 2 }
        } else {
            Em { units: 1, per_em: 5 }
        },
        size: Em { units: 3, per_em: 5 },
    }
}

/// What a shifted piece comes to: its text in dedicated characters, where
/// these are preferred, the piece has such a text and the font can shape it;
/// otherwise the piece itself, with the baseline shift and the size as styles.
pub open spec fn realized(
    body: ContentView,
    kind: ScriptKind,
    families: Seq<Option<Coverage>>,
    styles: ShiftStyles,
) -> ContentView {
    if styles.typographic && searched(body, kind) is Some && shapable(
        families,
        searched(body, kind)->0,
    ) {
        ContentView::Text(searched(body, kind)->0)
    } else {
        Content::styled_view(body, seq![Style::Baseline(styles.baseline), Style::Size(styles.size)])
    }
}

impl<const S: usize> ShiftNode<S> {
    /// The styles that the node is set with unless others are given.
    pub fn styles() -> (styles: ShiftStyles)
        ensures
            styles == default_styles(S),
    {
        ShiftStyles {
            typographic: true,
            baseline: if S == SUPERSCRIPT {
                Em { units: -1, per_em: 2 }
            } else {
                Em { units: 1, per_em: 5 }
            },
            size: Em { units: 3, per_em: 5 },
        }
    }

    /// A node of its own with the same body.
    pub fn unguard(&self) -> (node: ShiftNode<S>)
        ensures
            node.0@ == self.0@,
    {
        ShiftNode(self.0.clone())
    }

    /// The fields of the node by name: its body, under `body`.
    pub fn encode(&self) -> (fields: Vec<(&'static str, Content)>)
        ensures
            fields@.len() == 1,
            fields@[0].0@ == "body"@,
            fields@[0].1@ == self.0@,
    {
        let mut fields: Vec<(&'static str, Content)> = Vec::new();
        fields.push(("body", self.0.clone()));
        fields
    }

    /// Make the node from its arguments: the first positional one is its body.
    pub fn construct(args: &mut Args) -> (r: Result<Content, ArgError>)
        ensures
            match r {
                Ok(node) => exists|i: int|
                    #[trigger] is_first_positional(old(args).items@, i) && node == Content::Shift(
                        S,
                        Box::new(old(args).items@[i].value),
                    ) && final(args).items@ == old(args).items@.remove(i),
                Err(e) => e == ArgError::Missing("body") && *final(args) == *old(args) && forall|
                    j: int,
                |
                    0 <= j < old(args).items@.len() ==> (#[trigger] old(args).items@[j]).name is Some,
            },
    {
        match args.expect("body") {
            Ok(body) => Ok(Content::Shift(S, Box::new(body))),
            Err(e) => Err(e),
        }
    }

    /// Turn the node into content that can be laid out.
    pub fn realize(&self, families: &Vec<Option<Coverage>>, styles: &ShiftStyles) -> (r: Content)
        ensures
            r@ == realized(self.0@, S, families@, *styles),
    {
        let mut transformed: Option<Content> = None;
        if styles.typographic {
            if let Some(text) = search_text(&self.0, S) {
                if is_shapable(families, text.as_str()) {
                    transformed = Some(Content::Text(text));
                }
            }
        }
        match transformed {
            Some(content) => content,
            None => {
                let mut map: Vec<Style> = Vec::new();
                map.push(Style::Baseline(styles.baseline));
                map.push(Style::Size(styles.size));
                assert(map@ =~= seq![Style::Baseline(styles.baseline), Style::Size(styles.size)]);
                self.0.clone().styled_with_map(map)
            },
        }
    }
}

} // verus!
