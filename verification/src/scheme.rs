//! The color scheme: sixteen indexed ANSI colors plus the named special
//! colors, extracted from one document dictionary, and the renderer for the
//! destination configuration text.

use vstd::prelude::*;

verus! {

use crate::color::{
    hex_chars, hex_digit, hex_digit_str, hex_of_color, named_color_spec, Color,
};
use crate::error::{Error, ErrorView};
use crate::value::{lookup, Dict};

/// The seven named special-purpose colors. All seven must resolve or
/// extraction of the scheme fails as a whole; `bold`, `cursor` and
/// `cursor_text` are carried in the model although the present renderer does
/// not emit them.
#[derive(Clone, Copy, PartialEq, Eq, Structural, Debug)]
pub struct SpecialColors {
    pub background: Color,
    pub bold: Color,
    pub cursor: Color,
    pub cursor_text: Color,
    pub foreground: Color,
    pub selected_text: Color,
    pub selection: Color,
}

/// A whole scheme: `ansi[i]` is the color of document key `"Ansi i Color"`,
/// for i in 0..16, in index order.
#[derive(Debug)]
pub struct ColorScheme {
    pub ansi: Vec<Color>,
    pub special: SpecialColors,
}

/// The mathematical image of a [`ColorScheme`].
pub struct ColorSchemeView {
    pub ansi: Seq<Color>,
    pub special: SpecialColors,
}

impl View for ColorScheme {
    type V = ColorSchemeView;

    open spec fn view(&self) -> ColorSchemeView {
        ColorSchemeView { ansi: self.ansi@, special: self.special }
    }
}

/// The decimal text of an ANSI index in 0..16: one digit, or '1' and a digit.
pub open spec fn index_chars(i: int) -> Seq<char> {
    if i < 10 {
        seq![hex_digit(i)]
    } else {
        seq!['1', hex_digit(i - 10)]
    }
}

/// The document key of ANSI slot `i`: "Ansi ", the decimal index, " Color".
pub open spec fn ansi_key(i: int) -> Seq<char> {
    "Ansi "@ + index_chars(i) + " Color"@
}

/// The extraction of ANSI slots 0..n, in index order, fail-fast: the first
/// slot that fails decides the error and nothing after it is reached.
pub open spec fn ansi_prefix_spec(d: Dict, n: int) -> Result<Seq<Color>, ErrorView>
    decreases n,
{
    if n <= 0 {
        Ok(Seq::empty())
    } else {
        match ansi_prefix_spec(d, n - 1) {
            Err(e) => Err(e),
            Ok(s) => match named_color_spec(d, ansi_key(n - 1)) {
                Err(e) => Err(e),
                Ok(c) => Ok(s.push(c)),
            },
        }
    }
}

/// The extraction of the seven special colors, in this fixed order,
/// fail-fast.
pub open spec fn specials_of(d: Dict) -> Result<SpecialColors, ErrorView> {
    match named_color_spec(d, "Background Color"@) {
        Err(e) => Err(e),
        Ok(background) => match named_color_spec(d, "Bold Color"@) {
            Err(e) => Err(e),
            Ok(bold) => match named_color_spec(d, "Cursor Color"@) {
                Err(e) => Err(e),
                Ok(cursor) => match named_color_spec(d, "Cursor Text Color"@) {
                    Err(e) => Err(e),
                    Ok(cursor_text) => match named_color_spec(d, "Foreground Color"@) {
                        Err(e) => Err(e),
                        Ok(foreground) => match named_color_spec(d, "Selected Text Color"@) {
                            Err(e) => Err(e),
                            Ok(selected_text) => match named_color_spec(d, "Selection Color"@) {
                                Err(e) => Err(e),
                                Ok(selection) => Ok(
                                    SpecialColors {
                                        background,
                                        bold,
                                        cursor,
                                        cursor_text,
                                        foreground,
                                        selected_text,
                                        selection,
                                    },
                                ),
                            },
                        },
                    },
                },
            },
        },
    }
}

/// The extraction of a whole scheme: the sixteen ANSI slots in index order,
/// then the specials; the first failure anywhere is the result.
pub open spec fn scheme_of(d: Dict) -> Result<ColorSchemeView, ErrorView> {
    match ansi_prefix_spec(d, 16) {
        Err(e) => Err(e),
        Ok(ansi) => match specials_of(d) {
            Err(e) => Err(e),
            Ok(special) => Ok(ColorSchemeView { ansi, special }),
        },
    }
}

/// Once an ANSI prefix has failed, every longer prefix fails the same way:
/// construction of the rest is abandoned.
pub proof fn lemma_ansi_prefix_error_persists(d: Dict, n: int, m: int)
    requires
        0 <= n <= m,
        ansi_prefix_spec(d, n) is Err,
    ensures
        ansi_prefix_spec(d, m) == ansi_prefix_spec(d, n),
    decreases m - n,
{
    if m > n {
        lemma_ansi_prefix_error_persists(d, n, m - 1);
    }
}

/// While every slot below `n` extracts, the prefix of `n` slots is their
/// sequence, in index order.
proof fn lemma_ansi_prefix_ok(d: Dict, n: int)
    requires
        0 <= n <= 16,
        forall|j: int| 0 <= j < n ==> named_color_spec(d, ansi_key(j)) is Ok,
    ensures
        ansi_prefix_spec(d, n) is Ok,
    decreases n,
{
    if n > 0 {
        lemma_ansi_prefix_ok(d, n - 1);
    }
}

/// A document missing ANSI slot `i`, all slots below `i` sound, fails as a
/// whole with the missing-key error naming exactly that slot's key.
pub proof fn lemma_missing_ansi_key_fails(d: Dict, i: int)
    requires
        0 <= i < 16,
        lookup(d.entries@, ansi_key(i)) is None,
        forall|j: int| 0 <= j < i ==> named_color_spec(d, ansi_key(j)) is Ok,
    ensures
        scheme_of(d) == Err::<ColorSchemeView, ErrorView>(ErrorView::MissingKey(ansi_key(i))),
{
    lemma_ansi_prefix_ok(d, i);
    assert(ansi_prefix_spec(d, i + 1) == Err::<Seq<Color>, ErrorView>(
        ErrorView::MissingKey(ansi_key(i)),
    ));
    lemma_ansi_prefix_error_persists(d, i + 1, 16);
}

/// One rendered line: the setting's name, a space, and the color as '#' and
/// six hex digits, closed by a newline.
pub open spec fn hex_line(name: Seq<char>, c: Color) -> Seq<char> {
    name + " #"@ + hex_chars(hex_of_color(c)) + "\n"@
}

/// The name of the ANSI line for slot `i`: "color" and the decimal index,
/// left-justified to two columns with a trailing space.
pub open spec fn color_line_name(i: int) -> Seq<char> {
    "color"@ + (if i < 10 {
        seq![hex_digit(i), ' ']
    } else {
        seq!['1', hex_digit(i - 10)]
    })
}

/// The four leading lines: foreground, background, and the selection pair.
pub open spec fn header_lines(s: ColorSchemeView) -> Seq<char> {
    hex_line("foreground"@, s.special.foreground) + hex_line("background"@, s.special.background)
        + hex_line("selection_foreground"@, s.special.selected_text) + hex_line(
        "selection_background"@,
        s.special.selection,
    )
}

/// The rendered text up to ANSI slot `n`: the header, then one line per slot
/// below `n`, in index order.
pub open spec fn render_to(s: ColorSchemeView, n: int) -> Seq<char>
    decreases n,
{
    if n <= 0 {
        header_lines(s)
    } else {
        render_to(s, n - 1) + hex_line(color_line_name(n - 1), s.ansi[n - 1])
    }
}

/// The whole rendered text: twenty lines, four named settings then the
/// sixteen ANSI slots. The bold, cursor and cursor-text colors are not
/// emitted.
pub open spec fn render(s: ColorSchemeView) -> Seq<char> {
    render_to(s, 16)
}

/// Extraction is deterministic: two schemes read from the same dictionary
/// are equal and render to identical text.
pub proof fn lemma_extraction_deterministic(d: Dict, s1: ColorSchemeView, s2: ColorSchemeView)
    requires
        scheme_of(d) == Ok::<ColorSchemeView, ErrorView>(s1),
        scheme_of(d) == Ok::<ColorSchemeView, ErrorView>(s2),
    ensures
        s1 == s2,
        render(s1) == render(s2),
{
}

/// The document key of ANSI slot `i`, as a string.
fn ansi_key_string(i: usize) -> (r: String)
    requires
        i < 16,
    ensures
        r@ == ansi_key(i as int),
{
    let mut s = String::from_str("Ansi ");
    if i < 10 {
        s.append(hex_digit_str(i as u8));
    } else {
        s.append("1");
        s.append(hex_digit_str((i - 10) as u8));
        proof {
            reveal_strlit("1");
        }
    }
    s.append(" Color");
    proof {
        assert(s@ =~= ansi_key(i as int));
    }
    s
}

/// The name of the ANSI line for slot `i`, as a string.
fn color_name_string(i: usize) -> (r: String)
    requires
        i < 16,
    ensures
        r@ == color_line_name(i as int),
{
    let mut s = String::from_str("color");
    if i < 10 {
        s.append(hex_digit_str(i as u8));
        s.append(" ");
        proof {
            reveal_strlit(" ");
        }
    } else {
        s.append("1");
        s.append(hex_digit_str((i - 10) as u8));
        proof {
            reveal_strlit("1");
        }
    }
    proof {
        assert(s@ =~= color_line_name(i as int));
    }
    s
}

/// Appends one rendered line to `out`, per `hex_line`.
fn append_hex_line(out: &mut String, name: &str, c: &Color)
    ensures
        final(out)@ == old(out)@ + hex_line(name@, *c),
{
    out.append(name);
    out.append(" #");
    let hex = c.to_hex().as_string();
    out.append(hex.as_str());
    out.append("\n");
    proof {
        assert(out@ =~= old(out)@ + hex_line(name@, *c));
    }
}

impl SpecialColors {
    /// Extracts the seven special colors, per `specials_of`.
    pub fn from_dictionary(d: &Dict) -> (r: Result<SpecialColors, Error>)
        ensures
            match r {
                Ok(s) => specials_of(*d) == Ok::<SpecialColors, ErrorView>(s),
                Err(e) => specials_of(*d) == Err::<SpecialColors, ErrorView>(e@),
            },
    {
        let background = match Color::named_color(&String::from_str("Background Color"), d) {
            Ok(c) => c,
            Err(e) => {
                return Err(e);
            },
        };
        let bold = match Color::named_color(&String::from_str("Bold Color"), d) {
            Ok(c) => c,
            Err(e) => {
                return Err(e);
            },
        };
        let cursor = match Color::named_color(&String::from_str("Cursor Color"), d) {
            Ok(c) => c,
            Err(e) => {
                return Err(e);
            },
        };
        let cursor_text = match Color::named_color(&String::from_str("Cursor Text Color"), d) {
            Ok(c) => c,
            Err(e) => {
                return Err(e);
            },
        };
        let foreground = match Color::named_color(&String::from_str("Foreground Color"), d) {
            Ok(c) => c,
            Err(e) => {
                return Err(e);
            },
        };
        let selected_text = match Color::named_color(&String::from_str("Selected Text Color"), d) {
            Ok(c) => c,
            Err(e) => {
                return Err(e);
            },
        };
        let selection = match Color::named_color(&String::from_str("Selection Color"), d) {
            Ok(c) => c,
            Err(e) => {
                return Err(e);
            },
        };
        Ok(
            SpecialColors {
                background,
                bold,
                cursor,
                cursor_text,
                foreground,
                selected_text,
                selection,
            },
        )
    }
}

impl ColorScheme {
    /// Extracts a whole scheme from the document's root dictionary, per
    /// `scheme_of`: no partial scheme is ever returned.
    pub fn from_dictionary(d: &Dict) -> (r: Result<ColorScheme, Error>)
        ensures
            match r {
                Ok(s) => scheme_of(*d) == Ok::<ColorSchemeView, ErrorView>(s@) && s.ansi@.len()
                    == 16,
                Err(e) => scheme_of(*d) == Err::<ColorSchemeView, ErrorView>(e@),
            },
    {
        let ansi = match Self::ansi_from_dictionary(d) {
            Ok(v) => v,
            Err(e) => {
                return Err(e);
            },
        };
        let special = match SpecialColors::from_dictionary(d) {
            Ok(s) => s,
            Err(e) => {
                return Err(e);
            },
        };
        Ok(ColorScheme { ansi, special })
    }

    /// Extracts the sixteen ANSI slots in index order, per
    /// `ansi_prefix_spec`.
    fn ansi_from_dictionary(d: &Dict) -> (r: Result<Vec<Color>, Error>)
        ensures
            match r {
                Ok(v) => ansi_prefix_spec(*d, 16) == Ok::<Seq<Color>, ErrorView>(v@) && v@.len()
                    == 16,
                Err(e) => ansi_prefix_spec(*d, 16) == Err::<Seq<Color>, ErrorView>(e@),
            },
    {
        let mut ansi: Vec<Color> = Vec::new();
        for i in 0..16usize
            invariant
                ansi@.len() == i,
                ansi_prefix_spec(*d, i as int) == Ok::<Seq<Color>, ErrorView>(ansi@),
        {
            let name = ansi_key_string(i);
            let color = match Color::named_color(&name, d) {
                Ok(c) => c,
                Err(e) => {
                    proof {
                        lemma_ansi_prefix_error_persists(*d, i as int + 1, 16);
                    }
                    return Err(e);
                },
            };
            ansi.push(color);
        }
        Ok(ansi)
    }

    /// Renders the scheme as the destination configuration text, per
    /// `render`.
    pub fn to_kitty(&self) -> (r: String)
        requires
            self.ansi@.len() == 16,
        ensures
            r@ == render(self@),
    {
        let mut s = String::new();
        append_hex_line(&mut s, "foreground", &self.special.foreground);
        append_hex_line(&mut s, "background", &self.special.background);
        append_hex_line(&mut s, "selection_foreground", &self.special.selected_text);
        append_hex_line(&mut s, "selection_background", &self.special.selection);
        proof {
            assert(s@ =~= render_to(self@, 0));
        }
        for i in 0..16usize
            invariant
                self.ansi@.len() == 16,
                s@ == render_to(self@, i as int),
        {
            let name = color_name_string(i);
            append_hex_line(&mut s, name.as_str(), &self.ansi[i]);
            proof {
                assert(s@ =~= render_to(self@, i as int + 1));
            }
        }
        s
    }
}

} // verus!
