//! Pango markup spans: text wrapped in one `<span>` tag that carries style
//! attributes.

use vstd::prelude::*;
use vstd::string::*;

verus! {

/// The attributes that a span can carry.
#[derive(Debug, Clone, Copy, PartialEq, Eq, Structural)]
pub enum Attribute {
    /// A full font description.
    FontDesc,
    /// The font family.
    Face,
    /// The font size.
    Size,
    /// The slant style.
    Style,
    /// The font weight.
    Weight,
    /// The opacity of the text.
    Alpha,
    /// The capitalization variant.
    Variant,
    /// The font stretch.
    Stretch,
    /// The text color.
    Foreground,
    /// The color behind the text.
    Background,
    /// The underline style.
    Underline,
    /// Whether the text is struck through.
    Strikethrough,
}

impl Attribute {
    /// The attribute's name in markup.
    pub open spec fn spec_name(self) -> Seq<char> {
        match self {
            Attribute::FontDesc => "font_desc"@,
            Attribute::Face => "face"@,
            Attribute::Size => "size"@,
            Attribute::Style => "style"@,
            Attribute::Weight => "weight"@,
            Attribute::Alpha => "alpha"@,
            Attribute::Variant => "variant"@,
            Attribute::Stretch => "stretch"@,
            Attribute::Foreground => "foreground"@,
            Attribute::Background => "background"@,
            Attribute::Underline => "underline"@,
            Attribute::Strikethrough => "strikethrough"@,
        }
    }

    /// The attribute's name in markup.
    pub fn name(&self) -> (r: &'static str)
        ensures
            r@ == self.spec_name(),
    {
        match self {
            Attribute::FontDesc => "font_desc",
            Attribute::Face => "face",
            Attribute::Size => "size",
            Attribute::Style => "style",
            Attribute::Weight => "weight",
            Attribute::Alpha => "alpha",
            Attribute::Variant => "variant",
            Attribute::Stretch => "stretch",
            Attribute::Foreground => "foreground",
            Attribute::Background => "background",
            Attribute::Underline => "underline",
            Attribute::Strikethrough => "strikethrough",
        }
    }
}

/// The font families.
#[derive(Debug, Clone, Copy)]
pub enum FontFamily {
    /// The default family.
    Normal,
    /// Without serifs.
    Sans,
    /// With serifs.
    Serif,
    /// Fixed width.
    Monospace,
}

impl FontFamily {
    /// The value that markup uses for this family.
    pub open spec fn spec_token(self) -> Seq<char> {
        match self {
            FontFamily::Normal => "normal"@,
            FontFamily::Sans => "sans"@,
            FontFamily::Serif => "serif"@,
            FontFamily::Monospace => "monospace"@,
        }
    }

    /// The value that markup uses for this family.
    pub fn token(&self) -> (r: &'static str)
        ensures
            r@ == self.spec_token(),
    {
        match self {
            FontFamily::Normal => "normal",
            FontFamily::Sans => "sans",
            FontFamily::Serif => "serif",
            FontFamily::Monospace => "monospace",
        }
    }
}

/// The font sizes.
#[derive(Debug, Clone, Copy)]
pub enum FontSize {
    /// `xx-small`.
    VeryTiny,
    /// `x-small`.
    Tiny,
    /// `small`.
    Small,
    /// `medium`, the default.
    Normal,
    /// `large`.
    Large,
    /// `x-large`.
    Huge,
    /// `xx-large`.
    VeryHuge,
    /// Smaller than the surrounding text.
    Smaller,
    /// Larger than the surrounding text.
    Larger,
}

impl FontSize {
    /// The value that markup uses for this size.
    pub open spec fn spec_token(self) -> Seq<char> {
        match self {
            FontSize::VeryTiny => "xx-small"@,
            FontSize::Tiny => "x-small"@,
            FontSize::Small => "small"@,
            FontSize::Normal => "medium"@,
            FontSize::Large => "large"@,
            FontSize::Huge => "x-large"@,
            FontSize::VeryHuge => "xx-large"@,
            FontSize::Smaller => "smaller"@,
            FontSize::Larger => "larger"@,
        }
    }

    /// The value that markup uses for this size.
    pub fn token(&self) -> (r: &'static str)
        ensures
            r@ == self.spec_token(),
    {
        match self {
            FontSize::VeryTiny => "xx-small",
            FontSize::Tiny => "x-small",
            FontSize::Small => "small",
            FontSize::Normal => "medium",
            FontSize::Large => "large",
            FontSize::Huge => "x-large",
            FontSize::VeryHuge => "xx-large",
            FontSize::Smaller => "smaller",
            FontSize::Larger => "larger",
        }
    }
}

/// The slant styles.
#[derive(Debug, Clone, Copy)]
pub enum SlantStyle {
    /// Upright.
    Normal,
    /// The upright face, skewed.
    Oblique,
    /// The italic face.
    Italic,
}

impl SlantStyle {
    /// The value that markup uses for this style.
    pub open spec fn spec_token(self) -> Seq<char> {
        match self {
            SlantStyle::Normal => "normal"@,
            SlantStyle::Oblique => "oblique"@,
            SlantStyle::Italic => "italic"@,
        }
    }

    /// The value that markup uses for this style.
    pub fn token(&self) -> (r: &'static str)
        ensures
            r@ == self.spec_token(),
    {
        match self {
            SlantStyle::Normal => "normal",
            SlantStyle::Oblique => "oblique",
            SlantStyle::Italic => "italic",
        }
    }
}

/// The font weights, lightest first.
#[derive(Debug, Clone, Copy)]
pub enum Weight {
    /// Weight 100.
    Thin,
    /// Weight 200.
    UltraLight,
    /// Weight 300.
    Light,
    /// Weight 400, the default.
    Normal,
    /// Weight 500.
    Medium,
    /// Weight 600.
    SemiBold,
    /// Weight 700.
    Bold,
    /// Weight 800.
    UltraBold,
    /// Weight 900.
    Heavy,
    /// Weight 1000.
    UltraHeavy,
}

impl Weight {
    /// The value that markup uses for this weight.
    pub open spec fn spec_token(self) -> Seq<char> {
        match self {
            Weight::Thin => "100"@,
            Weight::UltraLight => "ultralight"@,
            Weight::Light => "light"@,
            Weight::Normal => "normal"@,
            Weight::Medium => "500"@,
            Weight::SemiBold => "600"@,
            Weight::Bold => "bold"@,
            Weight::UltraBold => "ultrabold"@,
            Weight::Heavy => "heavy"@,
            Weight::UltraHeavy => "1000"@,
        }
    }

    /// The value that markup uses for this weight.
    pub fn token(&self) -> (r: &'static str)
        ensures
            r@ == self.spec_token(),
    {
        match self {
            Weight::Thin => "100",
            Weight::UltraLight => "ultralight",
            Weight::Light => "light",
            Weight::Normal => "normal",
            Weight::Medium => "500",
            Weight::SemiBold => "600",
            Weight::Bold => "bold",
            Weight::UltraBold => "ultrabold",
            Weight::Heavy => "heavy",
            Weight::UltraHeavy => "1000",
        }
    }
}

/// The font stretches, narrowest first.
#[derive(Debug, Clone, Copy)]
pub enum FontStretch {
    /// Letters extremely close together.
    UltraCondensed,
    /// Letters very close together.
    ExtraCondensed,
    /// Letters close together.
    Condensed,
    /// Letters somewhat close together.
    SemiCondensed,
    /// The font's own spacing.
    Normal,
    /// Letters somewhat far apart.
    SemiExpanded,
    /// Letters far apart.
    Expanded,
    /// Letters very far apart.
    ExtraExpanded,
    /// Letters extremely far apart.
    UltraExpanded,
}

impl FontStretch {
    /// The value that markup uses for this stretch.
    pub open spec fn spec_token(self) -> Seq<char> {
        match self {
            FontStretch::UltraCondensed => "ultracondensed"@,
            FontStretch::ExtraCondensed => "extracondensed"@,
            FontStretch::Condensed => "condensed"@,
            FontStretch::SemiCondensed => "semicondensed"@,
            FontStretch::Normal => "normal"@,
            FontStretch::SemiExpanded => "semiexpanded"@,
            FontStretch::Expanded => "expanded"@,
            FontStretch::ExtraExpanded => "extraexpanded"@,
            FontStretch::UltraExpanded => "ultraexpanded"@,
        }
    }

    /// The value that markup uses for this stretch.
    pub fn token(&self) -> (r: &'static str)
        ensures
            r@ == self.spec_token(),
    {
        match self {
            FontStretch::UltraCondensed => "ultracondensed",
            FontStretch::ExtraCondensed => "extracondensed",
            FontStretch::Condensed => "condensed",
            FontStretch::SemiCondensed => "semicondensed",
            FontStretch::Normal => "normal",
            FontStretch::SemiExpanded => "semiexpanded",
            FontStretch::Expanded => "expanded",
            FontStretch::ExtraExpanded => "extraexpanded",
            FontStretch::UltraExpanded => "ultraexpanded",
        }
    }
}

/// The underline styles.
#[derive(Debug, Clone, Copy)]
pub enum Underline {
    /// No line.
    Off,
    /// One line.
    Single,
    /// Two lines.
    Double,
    /// The lower line of the two.
    Low,
}

impl Underline {
    /// The value that markup uses for this underline.
    pub open spec fn spec_token(self) -> Seq<char> {
        match self {
            Underline::Off => "none"@,
            Underline::Single => "single"@,
            Underline::Double => "double"@,
            Underline::Low => "low"@,
        }
    }

    /// The value that markup uses for this underline.
    pub fn token(&self) -> (r: &'static str)
        ensures
            r@ == self.spec_token(),
    {
        match self {
            Underline::Off => "none",
            Underline::Single => "single",
            Underline::Double => "double",
            Underline::Low => "low",
        }
    }
}

/// A span as plain values: its text, and the value of each attribute that
/// is set.
pub struct PangoView {
    /// The text inside the span.
    pub content: Seq<char>,
    /// The attributes that are set, each with its value.
    pub options: Map<Attribute, Seq<char>>,
}

/// Whether `order` lists each attribute of `options` once, and nothing else.
pub open spec fn is_ordering(order: Seq<Attribute>, options: Map<Attribute, Seq<char>>) -> bool {
    &&& order.no_duplicates()
    &&& forall|a: Attribute| order.contains(a) <==> options.dom().contains(a)
}

/// The attributes as they stand in a tag, in the given order: each as a
/// space, the name, and the value between single quotes.
pub open spec fn attributes_text(
    order: Seq<Attribute>,
    options: Map<Attribute, Seq<char>>,
) -> Seq<char>
    decreases order.len(),
{
    if order.len() == 0 {
        Seq::empty()
    } else {
        attributes_text(order.drop_last(), options) + " "@ + order.last().spec_name() + "='"@
            + options[order.last()] + "'"@
    }
}

/// The markup for `content` under the given attributes: the content itself
/// where none is set, else the content inside one `<span>` tag.
pub open spec fn markup(
    order: Seq<Attribute>,
    options: Map<Attribute, Seq<char>>,
    content: Seq<char>,
) -> Seq<char> {
    if order.len() == 0 {
        content
    } else {
        "<span"@ + attributes_text(order, options) + ">"@ + content + "</span>"@
    }
}

spec fn names<'a>(entries: Seq<(Attribute, &'a str)>) -> Seq<Attribute> {
    Seq::new(entries.len(), |i: int| entries[i].0)
}

spec fn entries_map<'a>(entries: Seq<(Attribute, &'a str)>) -> Map<Attribute, Seq<char>>
    decreases entries.len(),
{
    if entries.len() == 0 {
        Map::empty()
    } else {
        entries_map(entries.drop_last()).insert(entries.last().0, entries.last().1@)
    }
}

proof fn lemma_names_drop_last<'a>(entries: Seq<(Attribute, &'a str)>)
    requires
        entries.len() > 0,
    ensures
        names(entries.drop_last()) == names(entries).drop_last(),
        names(entries).no_duplicates() ==> names(entries.drop_last()).no_duplicates(),
{
    assert(names(entries.drop_last()) =~= names(entries).drop_last());
    if names(entries).no_duplicates() {
        assert forall|i: int, j: int|
            0 <= i < entries.len() - 1 && 0 <= j < entries.len() - 1 && i != j implies names(
            entries,
        ).drop_last()[i] != names(entries).drop_last()[j] by {
            assert(names(entries)[i] != names(entries)[j]);
        }
    }
}

proof fn lemma_entries_dom<'a>(entries: Seq<(Attribute, &'a str)>)
    ensures
        forall|a: Attribute| entries_map(entries).dom().contains(a) <==> names(entries).contains(a),
    decreases entries.len(),
{
    if entries.len() > 0 {
        lemma_entries_dom(entries.drop_last());
        lemma_names_drop_last(entries);
        assert forall|a: Attribute| entries_map(entries).dom().contains(a) <==> names(
            entries,
        ).contains(a) by {
            if names(entries).contains(a) {
                let i = choose|i: int| 0 <= i < entries.len() && names(entries)[i] == a;
                if i < entries.len() - 1 {
                    assert(names(entries).drop_last()[i] == a);
                }
            }
            if names(entries).drop_last().contains(a) {
                let i = choose|i: int|
                    0 <= i < entries.len() - 1 && names(entries).drop_last()[i] == a;
                assert(names(entries)[i] == a);
            }
            if entries.last().0 == a {
                assert(names(entries)[entries.len() - 1] == a);
            }
        }
    }
}

proof fn lemma_entries_value<'a>(entries: Seq<(Attribute, &'a str)>, i: int)
    requires
        names(entries).no_duplicates(),
        0 <= i < entries.len(),
    ensures
        entries_map(entries).dom().contains(entries[i].0),
        entries_map(entries)[entries[i].0] == entries[i].1@,
    decreases entries.len(),
{
    if i < entries.len() - 1 {
        lemma_names_drop_last(entries);
        lemma_entries_value(entries.drop_last(), i);
        assert(names(entries)[i] != names(entries)[entries.len() - 1]);
    }
}

proof fn lemma_entries_update<'a>(entries: Seq<(Attribute, &'a str)>, k: int, value: &'a str)
    requires
        names(entries).no_duplicates(),
        0 <= k < entries.len(),
    ensures
        entries_map(entries.update(k, (entries[k].0, value))) == entries_map(entries).insert(
            entries[k].0,
            value@,
        ),
        names(entries.update(k, (entries[k].0, value))) == names(entries),
    decreases entries.len(),
{
    let name = entries[k].0;
    let updated = entries.update(k, (name, value));
    assert(names(updated) =~= names(entries));
    if k == entries.len() - 1 {
        assert(updated.drop_last() =~= entries.drop_last());
        assert(entries_map(updated) =~= entries_map(entries).insert(name, value@));
    } else {
        lemma_names_drop_last(entries);
        lemma_entries_update(entries.drop_last(), k, value);
        assert(updated.drop_last() =~= entries.drop_last().update(k, (name, value)));
        assert(names(entries)[k] != names(entries)[entries.len() - 1]);
        assert(entries_map(updated) =~= entries_map(entries).insert(name, value@));
    }
}

/// A markup span under construction: a text and the style attributes set
/// for it. Set the attributes once, render any number of texts.
#[derive(Debug)]
pub struct Pango<'a> {
    content: &'a str,
    options: Vec<(Attribute, &'a str)>,
}

impl<'a> View for Pango<'a> {
    type V = PangoView;

    closed spec fn view(&self) -> PangoView {
        PangoView { content: self.content@, options: entries_map(self.options@) }
    }
}

impl<'a> Clone for Pango<'a> {
    fn clone(&self) -> (r: Self)
        ensures
            r@ == self@,
            r.order() == self.order(),
    {
        proof {
            use_type_invariant(self);
        }
        let n = self.options.len();
        let mut options: Vec<(Attribute, &'a str)> = Vec::with_capacity(n);
        let mut i: usize = 0;
        while i < n
            invariant
                i <= n,
                n == self.options@.len(),
                options@ == self.options@.subrange(0, i as int),
            decreases n - i,
        {
            options.push(self.options[i]);
            i = i + 1;
            assert(options@ =~= self.options@.subrange(0, i as int));
        }
        assert(options@ =~= self.options@);
        Pango { content: self.content, options }
    }
}

impl<'a> Pango<'a> {
    #[verifier::type_invariant]
    spec fn inv(self) -> bool {
        names(self.options@).no_duplicates()
    }

    /// The order in which `build` writes the attributes. It lists each
    /// attribute that is set once; beyond that it is not specified.
    pub closed spec fn order(&self) -> Seq<Attribute> {
        names(self.options@)
    }

    /// Whether `order` lists exactly the attributes that are set.
    pub open spec fn ordered(&self) -> bool {
        is_ordering(self.order(), self@.options)
    }

    proof fn lemma_ordered(self)
        requires
            self.inv(),
        ensures
            self.ordered(),
    {
        lemma_entries_dom(self.options@);
    }

    /// A span around `content` with no attribute set.
    pub fn new(content: &'a str) -> (r: Pango<'a>)
        ensures
            r@ == (PangoView { content: content@, options: Map::empty() }),
            r.order() == Seq::<Attribute>::empty(),
            r.ordered(),
    {
        let r = Pango { content, options: Vec::new() };
        proof {
            assert(r.order() =~= Seq::<Attribute>::empty());
            r.lemma_ordered();
        }
        r
    }

    /// A span around `content` with no attribute set and room for `size`
    /// attributes.
    pub fn with_capacity(content: &'a str, size: usize) -> (r: Pango<'a>)
        ensures
            r@ == (PangoView { content: content@, options: Map::empty() }),
            r.order() == Seq::<Attribute>::empty(),
            r.ordered(),
    {
        let r = Pango { content, options: Vec::with_capacity(size) };
        proof {
            assert(r.order() =~= Seq::<Attribute>::empty());
            r.lemma_ordered();
        }
        r
    }

    /// Gives attribute `name` the value `value`, replacing the value it had.
    fn set(&mut self, name: Attribute, value: &'a str)
        ensures
            final(self)@ == (PangoView {
                options: old(self)@.options.insert(name, value@),
                ..old(self)@
            }),
            final(self).ordered(),
    {
        proof {
            use_type_invariant(&*self);
        }
        let n = self.options.len();
        let mut updated: Vec<(Attribute, &'a str)> = Vec::new();
        let mut found: Option<usize> = None;
        let mut i: usize = 0;
        while i < n
            invariant
                i <= n,
                n == self.options@.len(),
                updated@ == self.options@.subrange(0, i as int),
                match found {
                    Some(k) => k < i && self.options@[k as int].0 == name,
                    None => forall|j: int| 0 <= j < i ==> self.options@[j].0 != name,
                },
            decreases n - i,
        {
            let entry = self.options[i];
            if entry.0 == name {
                found = Some(i);
            }
            updated.push(entry);
            i = i + 1;
            assert(updated@ =~= self.options@.subrange(0, i as int));
        }
        assert(updated@ =~= self.options@);
        match found {
            Some(k) => {
                updated.set(k, (name, value));
                proof {
                    lemma_entries_update(self.options@, k as int, value);
                }
            },
            None => {
                updated.push((name, value));
                proof {
                    assert(updated@.drop_last() =~= self.options@);
                    assert(names(updated@) =~= names(self.options@).push(name));
                    assert forall|a: int, b: int|
                        0 <= a < updated@.len() && 0 <= b < updated@.len() && a != b implies names(
                        updated@,
                    )[a] != names(updated@)[b] by {
                        if a < n && b < n {
                            assert(names(self.options@)[a] != names(self.options@)[b]);
                        }
                    }
                }
            },
        }
        self.options = updated;
        proof {
            lemma_entries_dom(self.options@);
        }
    }

    /// The markup for `content` under the attributes that are set.
    fn to_string_with_content(&self, content: &str) -> (r: String)
        ensures
            r@ == markup(self.order(), self@.options, content@),
            self.ordered(),
    {
        proof {
            use_type_invariant(self);
            self.lemma_ordered();
        }
        let n = self.options.len();
        if n == 0 {
            return content.to_string();
        }
        let ghost order = self.order();
        let ghost options = self@.options;
        let mut out = "<span".to_string();
        let mut i: usize = 0;
        assert(order.subrange(0, 0) =~= Seq::<Attribute>::empty());
        while i < n
            invariant
                i <= n,
                n == self.options@.len(),
                order == names(self.options@),
                options == entries_map(self.options@),
                order.no_duplicates(),
                out@ == "<span"@ + attributes_text(order.subrange(0, i as int), options),
            decreases n - i,
        {
            let entry = self.options[i];
            let ghost before = order.subrange(0, i as int);
            let ghost after = order.subrange(0, i + 1);
            proof {
                assert(after.drop_last() =~= before);
                assert(after.last() == entry.0);
                lemma_entries_value(self.options@, i as int);
            }
            out.append(" ");
            out.append(entry.0.name());
            out.append("='");
            out.append(entry.1);
            out.append("'");
            assert(out@ =~= "<span"@ + attributes_text(after, options));
            i = i + 1;
        }
        assert(order.subrange(0, n as int) =~= order);
        out.append(">");
        out.append(content);
        out.append("</span>");
        assert(out@ =~= markup(order, options, content@));
        out
    }

    /// The markup for the span's own text.
    pub fn build(&mut self) -> (r: String)
        ensures
            r@ == markup(old(self).order(), old(self)@.options, old(self)@.content),
            old(self).ordered(),
            *final(self) == *old(self),
    {
        self.to_string_with_content(self.content)
    }

    /// The markup for `content` under this span's attributes. The span
    /// itself stays as it is.
    pub fn build_content(&self, content: &str) -> (r: String)
        ensures
            r@ == markup(self.order(), self@.options, content@),
            self.ordered(),
    {
        self.to_string_with_content(content)
    }
}

impl<'a> Pango<'a> {
    /// Sets the full font description.
    pub fn font_description(&mut self, font: &'a str) -> (r: &mut Self)
        ensures
            r@ == (PangoView {
                options: old(self)@.options.insert(Attribute::FontDesc, font@),
                ..old(self)@
            }),
            r.ordered(),
            *final(self) == *final(r),
    {
        self.set(Attribute::FontDesc, font);
        self
    }

    /// Sets the font family.
    pub fn font_family(&mut self, family: FontFamily) -> (r: &mut Self)
        ensures
            r@ == (PangoView {
                options: old(self)@.options.insert(Attribute::Face, family.spec_token()),
                ..old(self)@
            }),
            r.ordered(),
            *final(self) == *final(r),
    {
        self.set(Attribute::Face, family.token());
        self
    }

    /// Sets the font size.
    pub fn size(&mut self, size: FontSize) -> (r: &mut Self)
        ensures
            r@ == (PangoView {
                options: old(self)@.options.insert(Attribute::Size, size.spec_token()),
                ..old(self)@
            }),
            r.ordered(),
            *final(self) == *final(r),
    {
        self.set(Attribute::Size, size.token());
        self
    }

    /// Sets the slant style.
    pub fn slant_style(&mut self, style: SlantStyle) -> (r: &mut Self)
        ensures
            r@ == (PangoView {
                options: old(self)@.options.insert(Attribute::Style, style.spec_token()),
                ..old(self)@
            }),
            r.ordered(),
            *final(self) == *final(r),
    {
        self.set(Attribute::Style, style.token());
        self
    }

    /// Sets the font weight.
    pub fn weight(&mut self, weight: Weight) -> (r: &mut Self)
        ensures
            r@ == (PangoView {
                options: old(self)@.options.insert(Attribute::Weight, weight.spec_token()),
                ..old(self)@
            }),
            r.ordered(),
            *final(self) == *final(r),
    {
        self.set(Attribute::Weight, weight.token());
        self
    }

    /// Sets the opacity of the text: a percentage such as `50%`.
    pub fn alpha(&mut self, alpha: &'a str) -> (r: &mut Self)
        ensures
            r@ == (PangoView {
                options: old(self)@.options.insert(Attribute::Alpha, alpha@),
                ..old(self)@
            }),
            r.ordered(),
            *final(self) == *final(r),
    {
        self.set(Attribute::Alpha, alpha);
        self
    }

    /// Renders lower case letters as small capitals.
    pub fn small_caps(&mut self) -> (r: &mut Self)
        ensures
            r@ == (PangoView {
                options: old(self)@.options.insert(Attribute::Variant, "smallcaps"@),
                ..old(self)@
            }),
            r.ordered(),
            *final(self) == *final(r),
    {
        self.set(Attribute::Variant, "smallcaps");
        self
    }

    /// Sets the font stretch.
    pub fn stretch(&mut self, stretch: FontStretch) -> (r: &mut Self)
        ensures
            r@ == (PangoView {
                options: old(self)@.options.insert(Attribute::Stretch, stretch.spec_token()),
                ..old(self)@
            }),
            r.ordered(),
            *final(self) == *final(r),
    {
        self.set(Attribute::Stretch, stretch.token());
        self
    }

    /// Sets the text color.
    pub fn fg_color(&mut self, color: &'a str) -> (r: &mut Self)
        ensures
            r@ == (PangoView {
                options: old(self)@.options.insert(Attribute::Foreground, color@),
                ..old(self)@
            }),
            r.ordered(),
            *final(self) == *final(r),
    {
        self.set(Attribute::Foreground, color);
        self
    }

    /// Sets the color behind the text.
    pub fn bg_color(&mut self, color: &'a str) -> (r: &mut Self)
        ensures
            r@ == (PangoView {
                options: old(self)@.options.insert(Attribute::Background, color@),
                ..old(self)@
            }),
            r.ordered(),
            *final(self) == *final(r),
    {
        self.set(Attribute::Background, color);
        self
    }

    /// Sets the underline style.
    pub fn underline(&mut self, underline: Underline) -> (r: &mut Self)
        ensures
            r@ == (PangoView {
                options: old(self)@.options.insert(Attribute::Underline, underline.spec_token()),
                ..old(self)@
            }),
            r.ordered(),
            *final(self) == *final(r),
    {
        self.set(Attribute::Underline, underline.token());
        self
    }

    /// Strikes the text through.
    pub fn strike_through(&mut self) -> (r: &mut Self)
        ensures
            r@ == (PangoView {
                options: old(self)@.options.insert(Attribute::Strikethrough, "true"@),
                ..old(self)@
            }),
            r.ordered(),
            *final(self) == *final(r),
    {
        self.set(Attribute::Strikethrough, "true");
        self
    }
}

/// With no attribute set, the markup of a text is the text itself.
pub proof fn law_plain_text_is_unchanged(order: Seq<Attribute>, content: Seq<char>)
    requires
        is_ordering(order, Map::empty()),
    ensures
        markup(order, Map::empty(), content) == content,
{
    if order.len() > 0 {
        assert(order.contains(order[0]));
    }
}

/// Setting an attribute twice leaves what setting it the second time alone
/// leaves: the later value, once.
pub proof fn law_last_value_wins(
    options: Map<Attribute, Seq<char>>,
    name: Attribute,
    first: Seq<char>,
    second: Seq<char>,
)
    ensures
        options.insert(name, first).insert(name, second) == options.insert(name, second),
        options.insert(name, first).insert(name, second)[name] == second,
{
    assert(options.insert(name, first).insert(name, second) =~= options.insert(name, second));
}

/// With one attribute set, the tag carries that attribute once, with its
/// value, whatever the order.
pub proof fn law_single_attribute(
    order: Seq<Attribute>,
    name: Attribute,
    value: Seq<char>,
    content: Seq<char>,
)
    requires
        is_ordering(order, Map::empty().insert(name, value)),
    ensures
        order == seq![name],
        markup(order, Map::empty().insert(name, value), content) == "<span"@ + " "@
            + name.spec_name() + "='"@ + value + "'"@ + ">"@ + content + "</span>"@,
{
    let options = Map::<Attribute, Seq<char>>::empty().insert(name, value);
    assert(order.contains(name));
    assert forall|i: int| 0 <= i < order.len() implies order[i] == name by {
        assert(order.contains(order[i]));
    }
    if order.len() > 1 {
        assert(order[0] == order[1]);
    }
    assert(order =~= seq![name]);
    assert(order.drop_last() =~= Seq::<Attribute>::empty());
    reveal_with_fuel(attributes_text, 2);
    assert(attributes_text(order, options) =~= " "@ + name.spec_name() + "='"@ + value + "'"@);
    assert(markup(order, options, content) =~= "<span"@ + " "@ + name.spec_name() + "='"@ + value
        + "'"@ + ">"@ + content + "</span>"@);
}

} // verus!
