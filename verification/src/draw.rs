//! What the screen shows: a list of drawing steps, to be carried out in order.

use vstd::prelude::*;

use crate::app::{App, AppView, Mode, ModeView};
use crate::entry;
use crate::entry::EntryView;
use crate::form;
use crate::form::{Form, FormView};
use crate::layout;
use crate::layout::{Constraint, Direction, Rect};
use crate::text;

verus! {

/// The size of the form.
pub const FORM_WIDTH: u16 = 70;

pub const FORM_HEIGHT: u16 = 21;

/// The width of the question whether to delete an entry.
pub const DELETE_WIDTH: u16 = 54;

/// The width of the question what to do with changes.
pub const EXIT_WIDTH: u16 = 52;

/// The height of a question.
pub const POPUP_HEIGHT: u16 = 5;

/// The colours that are used.
#[derive(Clone, Copy, Debug, PartialEq, Eq, Structural)]
pub enum Color {
    Black,
    Cyan,
    Gray,
    Red,
    Yellow,
}

/// A piece of a line.
#[derive(Clone, Debug, PartialEq, Eq)]
pub struct Span {
    pub text: String,
    pub bold: bool,
}

/// What a paragraph says.
#[derive(Clone, Debug, PartialEq, Eq)]
pub enum Content {
    /// A text.
    Plain(String),
    /// Lines made of pieces.
    Lines(Vec<Vec<Span>>),
}

/// A border with a title, drawn in a colour or in the usual one.
#[derive(Clone, Debug, PartialEq, Eq)]
pub struct Block {
    pub title: String,
    pub color: Option<Color>,
}

/// What happens to a line that is too long.
#[derive(Clone, Copy, Debug, PartialEq, Eq, Structural)]
pub enum Wrap {
    /// It is cut off.
    Cut,
    /// It goes on in the next line.
    Fold,
    /// It goes on in the next line, without the white space that it starts with.
    FoldTrimmed,
}

/// How the selected item of a list stands out.
#[derive(Clone, Debug, PartialEq, Eq)]
pub struct Highlight {
    pub foreground: Color,
    pub background: Color,
    pub bold: bool,
    pub symbol: String,
}

/// Something to draw.
#[derive(Clone, Debug, PartialEq, Eq)]
pub enum Widget {
    /// Blank cells.
    Clear,
    /// A border.
    Block(Block),
    /// A list in a border.
    List { border: Block, items: Vec<String>, selected: Option<usize>, highlight: Highlight },
    /// A text, in a border or without one, in a colour or in the usual one.
    Paragraph { content: Content, block: Option<Block>, color: Option<Color>, wrap: Wrap },
}

/// One drawing step.
#[derive(Clone, Debug, PartialEq, Eq)]
pub enum DrawOp {
    /// Draws in an area.
    Render { widget: Widget, area: Rect },
    /// Shows the cursor in a cell.
    SetCursor { x: u16, y: u16 },
}

/// What a `Span` holds.
#[verifier::ext_equal]
pub struct SpanView {
    pub text: Seq<char>,
    pub bold: bool,
}

/// What a `Content` holds.
#[verifier::ext_equal]
pub enum ContentView {
    Plain(Seq<char>),
    Lines(Seq<Seq<SpanView>>),
}

/// What a `Block` holds.
#[verifier::ext_equal]
pub struct BlockView {
    pub title: Seq<char>,
    pub color: Option<Color>,
}

/// What a `Highlight` holds.
#[verifier::ext_equal]
pub struct HighlightView {
    pub foreground: Color,
    pub background: Color,
    pub bold: bool,
    pub symbol: Seq<char>,
}

/// What a `Widget` holds.
#[verifier::ext_equal]
pub enum WidgetView {
    Clear,
    Block(BlockView),
    List {
        border: BlockView,
        items: Seq<Seq<char>>,
        selected: Option<int>,
        highlight: HighlightView,
    },
    Paragraph {
        content: ContentView,
        block: Option<BlockView>,
        color: Option<Color>,
        wrap: Wrap,
    },
}

/// What a `DrawOp` holds.
#[verifier::ext_equal]
pub enum DrawOpView {
    Render { widget: WidgetView, area: Rect },
    SetCursor { x: int, y: int },
}

/// What a list of texts holds.
pub open spec fn text_views(texts: Seq<String>) -> Seq<Seq<char>> {
    Seq::new(texts.len(), |i: int| texts[i]@)
}

/// What a line of pieces holds.
pub open spec fn span_views(spans: Seq<Span>) -> Seq<SpanView> {
    Seq::new(spans.len(), |i: int| spans[i]@)
}

/// What a list of lines holds.
pub open spec fn line_views(lines: Seq<Vec<Span>>) -> Seq<Seq<SpanView>> {
    Seq::new(lines.len(), |i: int| span_views(lines[i]@))
}

/// What a list of drawing steps holds.
pub open spec fn op_views(ops: Seq<DrawOp>) -> Seq<DrawOpView> {
    Seq::new(ops.len(), |i: int| ops[i]@)
}

impl View for Span {
    type V = SpanView;

    open spec fn view(&self) -> SpanView {
        SpanView { text: self.text@, bold: self.bold }
    }
}

impl View for Content {
    type V = ContentView;

    open spec fn view(&self) -> ContentView {
        match *self {
            Content::Plain(text) => ContentView::Plain(text@),
            Content::Lines(lines) => ContentView::Lines(line_views(lines@)),
        }
    }
}

impl View for Block {
    type V = BlockView;

    open spec fn view(&self) -> BlockView {
        BlockView { title: self.title@, color: self.color }
    }
}

impl View for Highlight {
    type V = HighlightView;

    open spec fn view(&self) -> HighlightView {
        HighlightView {
            foreground: self.foreground,
            background: self.background,
            bold: self.bold,
            symbol: self.symbol@,
        }
    }
}

impl View for Widget {
    type V = WidgetView;

    open spec fn view(&self) -> WidgetView {
        match *self {
            Widget::Clear => WidgetView::Clear,
            Widget::Block(block) => WidgetView::Block(block@),
            Widget::List { border, items, selected, highlight } => WidgetView::List {
                border: border@,
                items: text_views(items@),
                selected: match selected {
                    Some(index) => Some(index as int),
                    None => None,
                },
                highlight: highlight@,
            },
            Widget::Paragraph { content, block, color, wrap } => WidgetView::Paragraph {
                content: content@,
                block: match block {
                    Some(inner) => Some(inner@),
                    None => None,
                },
                color,
                wrap,
            },
        }
    }
}

impl View for DrawOp {
    type V = DrawOpView;

    open spec fn view(&self) -> DrawOpView {
        match *self {
            DrawOp::Render { widget, area } => DrawOpView::Render { widget: widget@, area },
            DrawOp::SetCursor { x, y } => DrawOpView::SetCursor { x: x as int, y: y as int },
        }
    }
}

/// The texts of an entry that are shown. The password is not among them.
pub struct EntryText {
    pub name: String,
    pub username: String,
    pub url: Option<String>,
    pub realm: Option<String>,
}

/// The texts of a form that are shown. The password is not among them.
pub struct FormText {
    pub name: String,
    pub username: String,
    pub url: String,
    pub realm: String,
}

/// The texts of the screen. To be shown, they have to be safe for a terminal.
pub struct ScreenText {
    /// Those of the entries, in the order of the list.
    pub entries: Vec<EntryText>,
    /// Those of the open form. They do not count where none is open.
    pub form: FormText,
}

/// Whether these are the texts of an entry, as they are in it.
pub open spec fn is_text_of(entry: EntryView, text: EntryText) -> bool {
    &&& text.name@ == entry.name
    &&& text.username@ == entry.username
    &&& entry::text_view(text.url) == entry.url
    &&& entry::text_view(text.realm) == entry.realm
}

/// Whether these are the texts of the open form, as they are in it, or empty ones
/// where none is open.
pub open spec fn is_form_text_of(mode: ModeView, text: FormText) -> bool {
    let fields = match mode {
        ModeView::Edit(form) => form.fields,
        _ => form::new_form().fields,
    };
    &&& text.name@ == fields[0]
    &&& text.username@ == fields[1]
    &&& text.url@ == fields[3]
    &&& text.realm@ == fields[4]
}

/// Whether these are the texts of the interface, as they are in it.
pub open spec fn is_screen_text_of(app: AppView, text: ScreenText) -> bool {
    &&& text.entries@.len() == app.entries.len()
    &&& forall|i: int|
        0 <= i < app.entries.len() ==> is_text_of(#[trigger] app.entries[i], text.entries@[i])
    &&& is_form_text_of(app.mode, text.form)
}

fn copied(text: &Option<String>) -> (copy: Option<String>)
    ensures
        entry::text_view(copy) == entry::text_view(*text),
{
    match text {
        Some(inner) => Some(inner.clone()),
        None => None,
    }
}

/// A piece of a line as it is usually written.
pub open spec fn plain_span(text: Seq<char>) -> SpanView {
    SpanView { text, bold: false }
}

/// A line with a bold label and a value.
pub open spec fn labelled_line(label: Seq<char>, value: Seq<char>) -> Seq<SpanView> {
    seq![SpanView { text: label, bold: true }, plain_span(value)]
}

/// The step that draws in an area.
pub open spec fn render(widget: WidgetView, area: Rect) -> DrawOpView {
    DrawOpView::Render { widget, area }
}

/// A border in the usual colour.
pub open spec fn titled(title: Seq<char>) -> BlockView {
    BlockView { title, color: None }
}

fn labelled(label: &str, value: &str) -> (line: Vec<Span>)
    ensures
        span_views(line@) == labelled_line(label@, value@),
{
    vec![
        Span { text: label.to_string(), bold: true },
        Span { text: value.to_string(), bold: false },
    ]
}

/// A question in front of the list.
pub open spec fn popup(
    title: Seq<char>,
    text: Seq<char>,
    width: u16,
    height: u16,
    area: Rect,
) -> Seq<DrawOpView> {
    let inner = layout::centered_in(width, height, area);
    seq![
        render(WidgetView::Clear, inner),
        render(
            WidgetView::Paragraph {
                content: ContentView::Plain(text),
                block: Some(titled(title)),
                color: None,
                wrap: Wrap::FoldTrimmed,
            },
            inner,
        ),
    ]
}

/// Draws a question in front of the list.
pub fn draw_popup(title: &str, text: &str, width: u16, height: u16, area: Rect) -> (ops: Vec<
    DrawOp,
>)
    requires
        layout::can_center(width, height, area),
    ensures
        op_views(ops@) == popup(title@, text@, width, height, area),
{
    let inner = layout::centered(width, height, area);
    vec![
        DrawOp::Render { widget: Widget::Clear, area: inner },
        DrawOp::Render {
            widget: Widget::Paragraph {
                content: Content::Plain(text.to_string()),
                block: Some(Block { title: title.to_string(), color: None }),
                color: None,
                wrap: Wrap::FoldTrimmed,
            },
            area: inner,
        },
    ]
}

/// How many characters a field of that width shows.
pub open spec fn field_width(row: Rect) -> int {
    vstd::math::max(row.width - 2, 0)
}

/// How many characters a field leaves out on its left: none, unless it is active
/// and its cursor would stand outside it.
pub open spec fn field_start(form: FormView, field: int, row: Rect) -> int {
    if field == form.active {
        vstd::math::max(form.cursor - vstd::math::max(field_width(row) - 1, 0), 0)
    } else {
        0
    }
}

/// A field of the form: the part of its text that fits and has the cursor in it,
/// and the cursor if the field is the active one and there is room for it.
pub open spec fn field_ops(
    form: FormView,
    field: int,
    label: Seq<char>,
    value: Seq<char>,
    row: Rect,
) -> Seq<DrawOpView> {
    let start = field_start(form, field, row);
    let shown = render(
        WidgetView::Paragraph {
            content: ContentView::Plain(text::window_of(value, start, field_width(row))),
            block: Some(
                BlockView {
                    title: " "@ + label + " "@,
                    color: if field == form.active {
                        Some(Color::Cyan)
                    } else {
                        None
                    },
                },
            ),
            color: None,
            wrap: Wrap::Cut,
        },
        row,
    );
    if field == form.active && row.height >= 3 {
        seq![
            shown,
            DrawOpView::SetCursor { x: row.x + 1 + (form.cursor - start), y: row.y + 1 },
        ]
    } else {
        seq![shown]
    }
}

/// Whether there is a cell for the cursor wherever it stands in a field.
pub open spec fn has_cursor_cell(row: Rect) -> bool {
    row.height >= 3 ==> row.x + vstd::math::max(row.width - 2, 1) <= u16::MAX && row.y + 1
        <= u16::MAX
}

fn push_field(
    ops: &mut Vec<DrawOp>,
    form: &Form,
    field: usize,
    label: &str,
    value: &str,
    row: Rect,
)
    requires
        field == form.active ==> has_cursor_cell(row),
    ensures
        op_views(final(ops)@) == op_views(old(ops)@) + field_ops(
            form@,
            field as int,
            label@,
            value@,
            row,
        ),
{
    let available = row.width.saturating_sub(2) as usize;
    let active = field == form.active;
    let start = if active {
        form.cursor.saturating_sub(available.saturating_sub(1))
    } else {
        0
    };
    ops.push(
        DrawOp::Render {
            widget: Widget::Paragraph {
                content: Content::Plain(text::window(value, start, available)),
                block: Some(
                    Block {
                        title: " ".to_string().concat(label).concat(" "),
                        color: if active {
                            Some(Color::Cyan)
                        } else {
                            None
                        },
                    },
                ),
                color: None,
                wrap: Wrap::Cut,
            },
            area: row,
        },
    );
    if active && row.height >= 3 {
        let column = form.cursor.saturating_sub(start);
        ops.push(DrawOp::SetCursor { x: row.x + 1 + column as u16, y: row.y + 1 });
    }
    assert(op_views(ops@) =~= op_views(old(ops)@) + field_ops(
        form@,
        field as int,
        label@,
        value@,
        row,
    ));
}

/// The texts of a form as they are shown, the password as bullets.
pub open spec fn shown_fields(form: FormView, text: FormText) -> Seq<Seq<char>> {
    seq![
        text.name@,
        text.username@,
        text::mask_of(form.fields[2].len()),
        text.url@,
        text.realm@,
    ]
}

/// The area of the form.
pub open spec fn form_area(area: Rect) -> Rect {
    layout::centered_in(FORM_WIDTH, FORM_HEIGHT, area)
}

/// The area in the border of the form.
pub open spec fn form_inner(area: Rect) -> Rect {
    let outer = form_area(area);
    Rect {
        x: (outer.x + 2) as u16,
        y: (outer.y + 1) as u16,
        width: vstd::math::max(outer.width - 4, 0) as u16,
        height: vstd::math::max(outer.height - 2, 0) as u16,
    }
}

/// Whether the cells of the form can be told in an area.
pub open spec fn form_fits(area: Rect) -> bool {
    let outer = form_area(area);
    &&& layout::can_center(FORM_WIDTH, FORM_HEIGHT, area)
    &&& outer.x + 2 + vstd::math::max(outer.width - 6, 1) <= u16::MAX
    &&& outer.y + 1 <= u16::MAX
}

/// Whether the cells of the form can be told in an area.
pub fn form_has_room(area: Rect) -> (room: bool)
    ensures
        room == form_fits(area),
{
    if !layout::has_center(FORM_WIDTH, FORM_HEIGHT, area) {
        return false;
    }
    let outer = layout::centered(FORM_WIDTH, FORM_HEIGHT, area);
    let columns = if outer.width > 7 {
        outer.width - 6
    } else {
        1
    };
    outer.x < u16::MAX - 1 && columns <= u16::MAX - 2 - outer.x && outer.y < u16::MAX
}

/// How the inner area of the form is split up.
pub open spec fn form_constraints() -> Seq<Constraint> {
    seq![
        Constraint::Length(3),
        Constraint::Length(3),
        Constraint::Length(3),
        Constraint::Length(3),
        Constraint::Length(3),
        Constraint::Min(1),
    ]
}

/// The border of the form.
pub open spec fn form_head(area: Rect, form: FormView) -> Seq<DrawOpView> {
    seq![
        render(WidgetView::Clear, area),
        render(
            WidgetView::Block(
                titled(
                    if form.editing is Some {
                        " Edit entry "@
                    } else {
                        " New entry "@
                    },
                ),
            ),
            area,
        ),
    ]
}

/// The line about the form: what is wrong with it, or which keys it takes.
pub open spec fn form_foot(form: FormView, row: Rect) -> DrawOpView {
    render(
        WidgetView::Paragraph {
            content: ContentView::Plain(
                match form.error {
                    Some(message) => message,
                    None => "Tab/\u{2191}/\u{2193} field  Enter save  Esc cancel"@,
                },
            ),
            block: None,
            color: Some(
                if form.error is Some {
                    Color::Red
                } else {
                    Color::Gray
                },
            ),
            wrap: Wrap::Cut,
        },
        row,
    )
}

/// The form in an area, with its fields in the first five of the given rows and
/// a line about it in the sixth.
pub open spec fn form_ops(area: Rect, rows: Seq<Rect>, form: FormView, text: FormText) -> Seq<
    DrawOpView,
> {
    let shown = shown_fields(form, text);
    form_head(area, form) + field_ops(form, 0, "Name"@, shown[0], rows[0]) + field_ops(
        form,
        1,
        "Username"@,
        shown[1],
        rows[1],
    ) + field_ops(form, 2, "Password"@, shown[2], rows[2]) + field_ops(
        form,
        3,
        "URL"@,
        shown[3],
        rows[3],
    ) + field_ops(form, 4, "Realm"@, shown[4], rows[4]) + seq![form_foot(form, rows[5])]
}

/// Draws the form in an area, with its fields in the first five of the given
/// rows and a line about it in the sixth.
pub fn draw_form_rows(area: Rect, rows: &Vec<Rect>, form: &Form, text: &FormText) -> (ops: Vec<
    DrawOp,
>)
    requires
        rows@.len() == 6,
        form@.active < 5 ==> has_cursor_cell(rows@[form@.active]),
    ensures
        op_views(ops@) == form_ops(area, rows@, form@, *text),
{
    let title = if form.editing.is_some() {
        " Edit entry "
    } else {
        " New entry "
    };
    let mut ops = vec![
        DrawOp::Render { widget: Widget::Clear, area },
        DrawOp::Render {
            widget: Widget::Block(Block { title: title.to_string(), color: None }),
            area,
        },
    ];
    assert(op_views(ops@) =~= form_head(area, form@));
    let bullets = text::mask(form.password.as_str().unicode_len());
    push_field(&mut ops, form, 0, "Name", text.name.as_str(), rows[0]);
    push_field(&mut ops, form, 1, "Username", text.username.as_str(), rows[1]);
    push_field(&mut ops, form, 2, "Password", bullets.as_str(), rows[2]);
    push_field(&mut ops, form, 3, "URL", text.url.as_str(), rows[3]);
    push_field(&mut ops, form, 4, "Realm", text.realm.as_str(), rows[4]);
    let (message, color) = match &form.error {
        Some(message) => (message.clone(), Color::Red),
        None => (
            "Tab/\u{2191}/\u{2193} field  Enter save  Esc cancel".to_string(),
            Color::Gray,
        ),
    };
    let ghost above = op_views(ops@);
    ops.push(
        DrawOp::Render {
            widget: Widget::Paragraph {
                content: Content::Plain(message),
                block: None,
                color: Some(color),
                wrap: Wrap::Cut,
            },
            area: rows[5],
        },
    );
    assert(op_views(ops@) =~= above + seq![form_foot(form@, rows@[5])]);
    ops
}

/// Whether these steps draw the form in the middle of an area, in these rows,
/// which the layout can give.
pub open spec fn draws_form_in(
    area: Rect,
    form: FormView,
    text: FormText,
    ops: Seq<DrawOpView>,
    rows: Seq<Rect>,
) -> bool {
    &&& rows.len() == 6
    &&& layout::layout_outcome(Direction::Vertical, form_constraints(), form_inner(area), rows)
    &&& forall|i: int|
        0 <= i < 6 ==> layout::part_of(Direction::Vertical, form_inner(area), #[trigger] rows[i])
    &&& ops == form_ops(form_area(area), rows, form, text)
}

/// Whether these steps draw the form in the middle of an area, in rows that the
/// layout can give.
pub open spec fn draws_form(area: Rect, form: FormView, text: FormText, ops: Seq<DrawOpView>) -> bool {
    exists|rows: Seq<Rect>| draws_form_in(area, form, text, ops, rows)
}

/// Draws the form in the middle of an area.
pub fn draw_form(area: Rect, form: &Form, text: &FormText) -> (ops: Vec<DrawOp>)
    requires
        form_fits(area),
    ensures
        draws_form(area, form@, *text, op_views(ops@)),
{
    let outer = layout::centered(FORM_WIDTH, FORM_HEIGHT, area);
    let inner = Rect {
        x: outer.x + 2,
        y: outer.y + 1,
        width: outer.width.saturating_sub(4),
        height: outer.height.saturating_sub(2),
    };
    let constraints = vec![
        Constraint::Length(3),
        Constraint::Length(3),
        Constraint::Length(3),
        Constraint::Length(3),
        Constraint::Length(3),
        Constraint::Min(1),
    ];
    assert(constraints@ =~= form_constraints());
    let rows = layout::split(Direction::Vertical, &constraints, inner);
    let ops = draw_form_rows(outer, &rows, form, text);
    assert(draws_form_in(area, form@, *text, op_views(ops@), rows@));
    ops
}

/// The title of the list: how many entries there are, and a star where they have
/// changed.
pub open spec fn list_title(app: AppView) -> Seq<char> {
    " Entries ("@ + text::decimal_of(app.entries.len()) + ")"@ + (if app.dirty {
        " *"@
    } else {
        ""@
    }) + " "@
}

/// The list.
pub open spec fn list_op(app: AppView, text: ScreenText, area: Rect) -> DrawOpView {
    render(
        WidgetView::List {
            border: titled(list_title(app)),
            items: Seq::new(text.entries@.len(), |i: int| text.entries@[i].name@),
            selected: if app.entries.len() > 0 {
                Some(app.selected)
            } else {
                None
            },
            highlight: HighlightView {
                foreground: Color::Black,
                background: Color::Cyan,
                bold: true,
                symbol: "> "@,
            },
        },
        area,
    )
}

/// The lines about an entry. They have eight bullets for the password, however
/// long it is.
pub open spec fn entry_lines(entry: EntryText) -> Seq<Seq<SpanView>> {
    seq![
        labelled_line("Name: "@, entry.name@),
        labelled_line("Username: "@, entry.username@),
        labelled_line("Password: "@, text::mask_of(8)),
        labelled_line("URL: "@, form::or_empty(entry::text_view(entry.url))),
        labelled_line("Realm: "@, form::or_empty(entry::text_view(entry.realm))),
    ]
}

/// What is said about the selected entry, or about an empty vault.
pub open spec fn detail_lines(app: AppView, text: ScreenText) -> Seq<Seq<SpanView>> {
    if app.selected < app.entries.len() {
        entry_lines(text.entries@[app.selected])
    } else {
        seq![
            seq![plain_span("The vault is empty. Press n or Insert to create an entry."@)],
        ]
    }
}

/// The details of the selected entry.
pub open spec fn detail_op(app: AppView, text: ScreenText, area: Rect) -> DrawOpView {
    render(
        WidgetView::Paragraph {
            content: ContentView::Lines(detail_lines(app, text)),
            block: Some(titled(" Details "@)),
            color: None,
            wrap: Wrap::Fold,
        },
        area,
    )
}

/// The line at the bottom: the message, or which keys the list takes.
pub open spec fn help_op(app: AppView, area: Rect) -> DrawOpView {
    render(
        WidgetView::Paragraph {
            content: ContentView::Plain(
                match app.message {
                    Some(message) => message,
                    None =>
                        "\u{2191}/\u{2193} move  c copy  n/Ins new  e/Enter edit  d/Del delete  q/Esc quit"@,
                },
            ),
            block: None,
            color: Some(
                if app.message is Some {
                    Color::Yellow
                } else {
                    Color::Gray
                },
            ),
            wrap: Wrap::Cut,
        },
        area,
    )
}

/// The three parts of the screen: list, details and the line at the bottom.
pub open spec fn pane_ops(
    app: AppView,
    text: ScreenText,
    list: Rect,
    details: Rect,
    help: Rect,
) -> Seq<DrawOpView> {
    seq![list_op(app, text, list), detail_op(app, text, details), help_op(app, help)]
}

/// How the screen is split up from top to bottom.
pub open spec fn screen_constraints() -> Seq<Constraint> {
    seq![Constraint::Min(5), Constraint::Length(2)]
}

/// How the upper part of the screen is split up from left to right.
pub open spec fn body_constraints() -> Seq<Constraint> {
    seq![Constraint::Percentage(40), Constraint::Percentage(60)]
}

/// Whether what is open in front of the list has cells in the area.
pub open spec fn front_fits(app: AppView, area: Rect) -> bool {
    match app.mode {
        ModeView::Browse => true,
        ModeView::Edit(form) => form_fits(area),
        ModeView::ConfirmDelete => layout::can_center(DELETE_WIDTH, POPUP_HEIGHT, area),
        ModeView::ConfirmExit => layout::can_center(EXIT_WIDTH, POPUP_HEIGHT, area),
    }
}

/// Whether these steps draw what is open in front of the list.
pub open spec fn draws_front(
    app: AppView,
    text: ScreenText,
    area: Rect,
    ops: Seq<DrawOpView>,
) -> bool {
    match app.mode {
        ModeView::Browse => ops == Seq::<DrawOpView>::empty(),
        ModeView::Edit(form) => draws_form(area, form, text.form, ops),
        ModeView::ConfirmDelete => ops == popup(
            " Delete entry? "@,
            "Delete selected entry?  y yes  n/Esc no"@,
            DELETE_WIDTH,
            POPUP_HEIGHT,
            area,
        ),
        ModeView::ConfirmExit => ops == popup(
            " Unsaved changes "@,
            "s save  d discard  Esc keep editing"@,
            EXIT_WIDTH,
            POPUP_HEIGHT,
            area,
        ),
    }
}

/// Whether these steps draw the screen: first the list and the details in the
/// parts of the upper chunk and the line at the bottom in the lower one, then what
/// is open in front.
pub open spec fn draws_screen_in(
    app: AppView,
    text: ScreenText,
    area: Rect,
    ops: Seq<DrawOpView>,
    chunks: Seq<Rect>,
    body: Seq<Rect>,
    front: Seq<DrawOpView>,
) -> bool {
    &&& chunks.len() == 2
    &&& body.len() == 2
    &&& layout::layout_outcome(Direction::Vertical, screen_constraints(), area, chunks)
    &&& layout::layout_outcome(Direction::Horizontal, body_constraints(), chunks[0], body)
    &&& forall|i: int|
        0 <= i < 2 ==> layout::part_of(Direction::Vertical, area, #[trigger] chunks[i])
    &&& forall|i: int|
        0 <= i < 2 ==> layout::part_of(Direction::Horizontal, chunks[0], #[trigger] body[i])
    &&& draws_front(app, text, area, front)
    &&& ops == pane_ops(app, text, body[0], body[1], chunks[1]) + front
}

/// Whether these steps draw the screen, in parts that the layout can give.
pub open spec fn draws_screen(
    app: AppView,
    text: ScreenText,
    area: Rect,
    ops: Seq<DrawOpView>,
) -> bool {
    exists|chunks: Seq<Rect>, body: Seq<Rect>, front: Seq<DrawOpView>|
        draws_screen_in(app, text, area, ops, chunks, body, front)
}

fn shown_text(text: &Option<String>) -> (shown: &str)
    ensures
        shown@ == form::or_empty(entry::text_view(*text)),
{
    match text {
        Some(inner) => inner.as_str(),
        None => {
            proof {
                reveal_strlit("");
                assert(""@ =~= Seq::<char>::empty());
            }
            ""
        },
    }
}

fn entry_detail(entry: &EntryText) -> (lines: Vec<Vec<Span>>)
    ensures
        line_views(lines@) == entry_lines(*entry),
{
    let bullets = text::mask(8);
    let lines = vec![
        labelled("Name: ", entry.name.as_str()),
        labelled("Username: ", entry.username.as_str()),
        labelled("Password: ", bullets.as_str()),
        labelled("URL: ", shown_text(&entry.url)),
        labelled("Realm: ", shown_text(&entry.realm)),
    ];
    assert(line_views(lines@) =~= entry_lines(*entry));
    lines
}

fn empty_detail() -> (lines: Vec<Vec<Span>>)
    ensures
        line_views(lines@) == seq![
            seq![plain_span("The vault is empty. Press n or Insert to create an entry."@)],
        ],
{
    let line = vec![
        Span {
            text: "The vault is empty. Press n or Insert to create an entry.".to_string(),
            bold: false,
        },
    ];
    assert(span_views(line@) =~= seq![
        plain_span("The vault is empty. Press n or Insert to create an entry."@),
    ]);
    let lines = vec![line];
    assert(line_views(lines@) =~= seq![
        seq![plain_span("The vault is empty. Press n or Insert to create an entry."@)],
    ]);
    lines
}

impl App {
    /// The texts of the interface as they are in it, to be made safe for a terminal
    /// before they are drawn.
    pub fn raw_text(&self) -> (text: ScreenText)
        ensures
            is_screen_text_of(self@, text),
    {
        let mut entries: Vec<EntryText> = Vec::new();
        let mut i: usize = 0;
        while i < self.entries.len()
            invariant
                i <= self.entries@.len(),
                entries@.len() == i,
                forall|j: int|
                    0 <= j < i ==> is_text_of(#[trigger] self.entries@[j]@, entries@[j]),
            decreases self.entries@.len() - i,
        {
            let entry = &self.entries[i];
            entries.push(
                EntryText {
                    name: entry.name.clone(),
                    username: entry.username.clone(),
                    url: copied(&entry.url),
                    realm: copied(&entry.realm),
                },
            );
            i = i + 1;
        }
        let form = match &self.mode {
            Mode::Edit(form) => FormText {
                name: form.name.clone(),
                username: form.username.clone(),
                url: form.url.clone(),
                realm: form.realm.clone(),
            },
            _ => FormText {
                name: String::new(),
                username: String::new(),
                url: String::new(),
                realm: String::new(),
            },
        };
        ScreenText { entries, form }
    }

    /// Draws the list, the details and the line at the bottom, each in its area.
    pub fn draw_panes(&self, text: &ScreenText, list: Rect, details: Rect, help: Rect) -> (ops: Vec<
        DrawOp,
    >)
        requires
            text.entries@.len() == self.entries@.len(),
        ensures
            op_views(ops@) == pane_ops(self@, *text, list, details, help),
    {
        let mut items: Vec<String> = Vec::new();
        let mut i: usize = 0;
        while i < text.entries.len()
            invariant
                i <= text.entries@.len(),
                items@.len() == i,
                forall|j: int| 0 <= j < i ==> (#[trigger] items@[j])@ == text.entries@[j].name@,
            decreases text.entries@.len() - i,
        {
            items.push(text.entries[i].name.clone());
            i = i + 1;
        }
        let star = if self.dirty {
            " *"
        } else {
            ""
        };
        let title = " Entries (".to_string().concat(
            text::decimal(self.entries.len()).as_str(),
        ).concat(")").concat(star).concat(" ");
        let lines = if self.selected < self.entries.len() {
            entry_detail(&text.entries[self.selected])
        } else {
            empty_detail()
        };
        let (message, color) = match &self.message {
            Some(message) => (message.clone(), Color::Yellow),
            None => (
                "\u{2191}/\u{2193} move  c copy  n/Ins new  e/Enter edit  d/Del delete  q/Esc quit".to_string(),
                Color::Gray,
            ),
        };
        let ops = vec![
            DrawOp::Render {
                widget: Widget::List {
                    border: Block { title, color: None },
                    items,
                    selected: if self.entries.is_empty() {
                        None
                    } else {
                        Some(self.selected)
                    },
                    highlight: Highlight {
                        foreground: Color::Black,
                        background: Color::Cyan,
                        bold: true,
                        symbol: "> ".to_string(),
                    },
                },
                area: list,
            },
            DrawOp::Render {
                widget: Widget::Paragraph {
                    content: Content::Lines(lines),
                    block: Some(Block { title: " Details ".to_string(), color: None }),
                    color: None,
                    wrap: Wrap::Fold,
                },
                area: details,
            },
            DrawOp::Render {
                widget: Widget::Paragraph {
                    content: Content::Plain(message),
                    block: None,
                    color: Some(color),
                    wrap: Wrap::Cut,
                },
                area: help,
            },
        ];
        assert(op_views(ops@)[0] =~~= list_op(self@, *text, list));
        assert(op_views(ops@) =~= pane_ops(self@, *text, list, details, help));
        ops
    }

    /// Draws what is open in front of the list.
    pub fn draw_front(&self, text: &ScreenText, area: Rect) -> (ops: Vec<DrawOp>)
        requires
            front_fits(self@, area),
        ensures
            draws_front(self@, *text, area, op_views(ops@)),
    {
        match &self.mode {
            Mode::Browse => {
                let ops: Vec<DrawOp> = Vec::new();
                assert(op_views(ops@) =~= Seq::<DrawOpView>::empty());
                ops
            },
            Mode::Edit(form) => draw_form(area, form, &text.form),
            Mode::ConfirmDelete => draw_popup(
                " Delete entry? ",
                "Delete selected entry?  y yes  n/Esc no",
                DELETE_WIDTH,
                POPUP_HEIGHT,
                area,
            ),
            Mode::ConfirmExit => draw_popup(
                " Unsaved changes ",
                "s save  d discard  Esc keep editing",
                EXIT_WIDTH,
                POPUP_HEIGHT,
                area,
            ),
        }
    }

    /// Whether what is open in front of the list has cells in the area.
    pub fn has_room(&self, area: Rect) -> (room: bool)
        ensures
            room == front_fits(self@, area),
    {
        match &self.mode {
            Mode::Browse => true,
            Mode::Edit(_) => form_has_room(area),
            Mode::ConfirmDelete => layout::has_center(DELETE_WIDTH, POPUP_HEIGHT, area),
            Mode::ConfirmExit => layout::has_center(EXIT_WIDTH, POPUP_HEIGHT, area),
        }
    }

    /// Draws the screen.
    pub fn draw(&self, text: &ScreenText, area: Rect) -> (ops: Vec<DrawOp>)
        requires
            text.entries@.len() == self.entries@.len(),
            front_fits(self@, area),
        ensures
            draws_screen(self@, *text, area, op_views(ops@)),
    {
        let constraints = vec![Constraint::Min(5), Constraint::Length(2)];
        assert(constraints@ =~= screen_constraints());
        let chunks = layout::split(Direction::Vertical, &constraints, area);
        let constraints = vec![Constraint::Percentage(40), Constraint::Percentage(60)];
        assert(constraints@ =~= body_constraints());
        let body = layout::split(Direction::Horizontal, &constraints, chunks[0]);
        let mut ops = self.draw_panes(text, body[0], body[1], chunks[1]);
        let mut front = self.draw_front(text, area);
        let ghost panes = op_views(ops@);
        let ghost before = op_views(front@);
        ops.append(&mut front);
        assert(op_views(ops@) =~= panes + before);
        assert(draws_screen_in(self@, *text, area, op_views(ops@), chunks@, body@, before));
        ops
    }
}

} // verus!
