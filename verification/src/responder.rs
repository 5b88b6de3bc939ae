use vstd::prelude::*;
use vstd::string::StringExecFns;

verus! {

/// The fixed accent color of every embed reply: pink, as a packed
/// `0xRRGGBB` value (red 255, green 192, blue 203).
pub const ACCENT_COLOR: u32 = 0xFFC0CB;

/// One entry of the quote corpus: a quotation and the name of its author.
#[derive(Debug)]
pub struct BlitzQuote {
    pub quote: String,
    pub author: String,
}

impl BlitzQuote {
    pub fn new(quote: &str, author: &str) -> (q: BlitzQuote)
        ensures
            q.quote@ == quote@,
            q.author@ == author@,
    {
        BlitzQuote { quote: quote.to_owned(), author: author.to_owned() }
    }
}

/// One field of an embed payload: a name, a body, and whether the field
/// is rendered inline.
#[derive(Debug)]
pub struct EmbedField {
    pub name: String,
    pub value: String,
    pub inline: bool,
}

/// A rendered reply, ready to be handed to the transport boundary.
#[derive(Debug)]
pub struct ReplyPayload {
    pub title: Option<String>,
    pub description: String,
    pub fields: Vec<EmbedField>,
    pub footer_text: Option<String>,
    pub accent_color: u32,
}

/// The mathematical value of an `EmbedField`.
pub struct FieldView {
    pub name: Seq<char>,
    pub value: Seq<char>,
    pub inline: bool,
}

/// The mathematical value of a `ReplyPayload`: every text field as a
/// character sequence.
#[verifier::ext_equal]
pub struct PayloadView {
    pub title: Option<Seq<char>>,
    pub description: Seq<char>,
    pub fields: Seq<FieldView>,
    pub footer_text: Option<Seq<char>>,
    pub accent_color: u32,
}

impl View for EmbedField {
    type V = FieldView;

    open spec fn view(&self) -> FieldView {
        FieldView { name: self.name@, value: self.value@, inline: self.inline }
    }
}

impl View for ReplyPayload {
    type V = PayloadView;

    open spec fn view(&self) -> PayloadView {
        PayloadView {
            title: match self.title {
                Some(t) => Some(t@),
                None => None,
            },
            description: self.description@,
            fields: self.fields@.map_values(|f: EmbedField| f@),
            footer_text: match self.footer_text {
                Some(t) => Some(t@),
                None => None,
            },
            accent_color: self.accent_color,
        }
    }
}

/// The description of a quote reply: the quotation wrapped in double quotes.
pub open spec fn spec_quote_description(quote: Seq<char>) -> Seq<char> {
    "\""@ + quote + "\""@
}

/// The footer of a quote reply: a dash, a space, and the author's name.
pub open spec fn spec_quote_footer(author: Seq<char>) -> Seq<char> {
    "- "@ + author
}

/// The payload a quote entry renders to.
pub open spec fn spec_render_quote(quote: Seq<char>, author: Seq<char>) -> PayloadView {
    PayloadView {
        title: None,
        description: spec_quote_description(quote),
        fields: Seq::empty(),
        footer_text: Some(spec_quote_footer(author)),
        accent_color: ACCENT_COLOR,
    }
}

/// Renders a quote entry: description is the quotation in double quotes,
/// footer names the author after a dash, accent color is the fixed pink.
pub fn render_quote(entry: &BlitzQuote) -> (p: ReplyPayload)
    ensures
        p@ == spec_render_quote(entry.quote@, entry.author@),
{
    let mut description = String::new();
    description.append("\"");
    description.append(entry.quote.as_str());
    description.append("\"");

    let mut footer = String::new();
    footer.append("- ");
    footer.append(entry.author.as_str());

    let p = ReplyPayload {
        title: None,
        description,
        fields: Vec::new(),
        footer_text: Some(footer),
        accent_color: ACCENT_COLOR,
    };
    proof {
        assert(p@ =~= spec_render_quote(entry.quote@, entry.author@));
    }
    p
}

/// The fixed title of a reason reply.
pub open spec fn spec_reason_title() -> Seq<char> {
    "Why rust?!"@
}

/// The payload a reason entry renders to.
pub open spec fn spec_render_reason(text: Seq<char>) -> PayloadView {
    PayloadView {
        title: Some(spec_reason_title()),
        description: text,
        fields: Seq::empty(),
        footer_text: None,
        accent_color: ACCENT_COLOR,
    }
}

/// Renders a reason entry: the fixed title, the entry text as the
/// description, and the fixed pink accent color.
pub fn render_reason(entry: &String) -> (p: ReplyPayload)
    ensures
        p@ == spec_render_reason(entry@),
{
    let p = ReplyPayload {
        title: Some(String::from_str("Why rust?!")),
        description: entry.clone(),
        fields: Vec::new(),
        footer_text: None,
        accent_color: ACCENT_COLOR,
    };
    proof {
        assert(p@ =~= spec_render_reason(entry@));
    }
    p
}

/// The fixed title of the color-information reply.
pub open spec fn spec_color_title() -> Seq<char> {
    "Set your own role color!"@
}

/// The fixed description of the color-information reply.
pub open spec fn spec_color_description() -> Seq<char> {
    "You can get cute :sparkles: by using the color commands at <#855703545398427668>\nUse `color list` to list all the available colors\nThen `color = [color name or number]` to set your role color!\nIf you'd like a color that is not on the list, let Lucy know!"@
}

/// The payload of the color-information reply.
pub open spec fn spec_render_color_info() -> PayloadView {
    PayloadView {
        title: Some(spec_color_title()),
        description: spec_color_description(),
        fields: Seq::empty(),
        footer_text: None,
        accent_color: ACCENT_COLOR,
    }
}

/// Renders the fixed color-information reply, built from literal text
/// alone: no randomness, no inputs.
pub fn render_color_info() -> (p: ReplyPayload)
    ensures
        p@ == spec_render_color_info(),
{
    let p = ReplyPayload {
        title: Some(String::from_str("Set your own role color!")),
        description: String::from_str(
            "You can get cute :sparkles: by using the color commands at <#855703545398427668>\nUse `color list` to list all the available colors\nThen `color = [color name or number]` to set your role color!\nIf you'd like a color that is not on the list, let Lucy know!",
        ),
        fields: Vec::new(),
        footer_text: None,
        accent_color: ACCENT_COLOR,
    };
    proof {
        assert(p@ =~= spec_render_color_info());
    }
    p
}

/// The fields of the ping reply: two inline fields and one non-inline field.
pub open spec fn spec_ping_fields() -> Seq<FieldView> {
    seq![
        (FieldView {
            name: "This is the first field"@,
            value: "This is a field body"@,
            inline: true,
        }),
        (FieldView {
            name: "This is the second field"@,
            value: "Both of these fields are inline"@,
            inline: true,
        }),
        (FieldView {
            name: "This is the third field"@,
            value: "This is not an inline field"@,
            inline: false,
        }),
    ]
}

/// The payload of the ping reply.
pub open spec fn spec_render_ping() -> PayloadView {
    PayloadView {
        title: Some("This is a title"@),
        description: "This is a description"@,
        fields: spec_ping_fields(),
        footer_text: Some("This is a footer"@),
        accent_color: ACCENT_COLOR,
    }
}

/// Renders the fixed ping reply: a literal title, description and footer,
/// two inline fields and one non-inline field.
pub fn render_ping() -> (p: ReplyPayload)
    ensures
        p@ == spec_render_ping(),
{
    let mut fields: Vec<EmbedField> = Vec::new();
    fields.push(EmbedField {
        name: String::from_str("This is the first field"),
        value: String::from_str("This is a field body"),
        inline: true,
    });
    fields.push(EmbedField {
        name: String::from_str("This is the second field"),
        value: String::from_str("Both of these fields are inline"),
        inline: true,
    });
    fields.push(EmbedField {
        name: String::from_str("This is the third field"),
        value: String::from_str("This is not an inline field"),
        inline: false,
    });
    let p = ReplyPayload {
        title: Some(String::from_str("This is a title")),
        description: String::from_str("This is a description"),
        fields,
        footer_text: Some(String::from_str("This is a footer")),
        accent_color: ACCENT_COLOR,
    };
    proof {
        assert(p@.fields =~= spec_ping_fields());
        assert(p@ =~= spec_render_ping());
    }
    p
}

/// The fixed link that the picture reply carries.
pub open spec fn spec_pics_link() -> Seq<char> {
    "https://imgur.com/a/cutepics"@
}

/// Returns the fixed picture link as bare text: this reply is plain,
/// with no embed structure around it.
pub fn pics_link() -> (s: String)
    ensures
        s@ == spec_pics_link(),
{
    String::from_str("https://imgur.com/a/cutepics")
}

/// Rendering a quote is pure: the payload is a function of the entry's
/// quotation and author alone, so two renderings of the same entry are
/// identical in every field.
pub proof fn lemma_render_quote_pure(
    p1: PayloadView,
    p2: PayloadView,
    quote: Seq<char>,
    author: Seq<char>,
)
    requires
        p1 == spec_render_quote(quote, author),
        p2 == spec_render_quote(quote, author),
    ensures
        p1 == p2,
{
}

} // verus!
