//! What is drawn and what is said, in terms of texts, cells and places.

use vstd::prelude::*;

use crate::app::{AppView, Exit, ModeView};
use crate::draw;
use crate::draw::{
    Block, BlockView, Color, Content, ContentView, DrawOp, DrawOpView, FormText, Highlight,
    ScreenText, Span, SpanView, Widget, WidgetView, Wrap,
};
use crate::entry;
use crate::form::FormView;
use crate::layout;
use crate::layout::{Constraint, Direction, Rect};
use crate::save;
use crate::save::{
    Ending, EndingView, SaveAction, SaveActionView, SaveEvent, SaveEventView,
};
use crate::text;

verus! {

/// Of two texts that agree up to a place and differ there, the one with the smaller
/// code point stands before the other and not behind it.
pub proof fn law_first_difference_decides(a: Seq<char>, b: Seq<char>, k: int)
    requires
        0 <= k < a.len(),
        k < b.len(),
        a.take(k) == b.take(k),
        a[k] < b[k],
    ensures
        text::lex_le(a, b),
        !text::lex_le(b, a),
    decreases k,
{
    if k > 0 {
        assert(a[0] == a.take(k)[0] && b[0] == b.take(k)[0]);
        let rest_a = a.drop_first();
        let rest_b = b.drop_first();
        assert forall|i: int| 0 <= i < k - 1 implies rest_a[i] == rest_b[i] by {
            assert(a[i + 1] == a.take(k)[i + 1] && b[i + 1] == b.take(k)[i + 1]);
        }
        assert(rest_a.take(k - 1) =~= rest_b.take(k - 1));
        law_first_difference_decides(rest_a, rest_b, k - 1);
    }
}

/// A text stands before its continuations and behind none of them.
pub proof fn law_continuations_follow(a: Seq<char>, b: Seq<char>)
    ensures
        text::lex_le(a, a + b),
        b.len() > 0 ==> !text::lex_le(a + b, a),
    decreases a.len(),
{
    if a.len() > 0 {
        assert((a + b).drop_first() =~= a.drop_first() + b);
        law_continuations_follow(a.drop_first(), b);
    }
}

/// What is left of a trimmed text is a piece of it with nothing but white space
/// before and behind it, and with none at its own ends.
pub proof fn law_trimming_takes_white_space(s: Seq<char>) -> (ends: (int, int))
    ensures
        0 <= ends.0 <= ends.1 <= s.len(),
        text::trimmed(s) == s.subrange(ends.0, ends.1),
        forall|i: int| 0 <= i < ends.0 ==> text::white_space(#[trigger] s[i]),
        forall|i: int| ends.1 <= i < s.len() ==> text::white_space(#[trigger] s[i]),
        ends.0 < ends.1 ==> !text::white_space(s[ends.0]) && !text::white_space(s[ends.1 - 1]),
{
    let from = lemma_trim_start(s);
    let rest = s.skip(from);
    let len = lemma_trim_end(rest);
    assert(rest.take(len) =~= s.subrange(from, from + len));
    assert forall|i: int| from + len <= i < s.len() implies text::white_space(#[trigger] s[i]) by {
        assert(rest[i - from] == s[i]);
    }
    (from, from + len)
}

proof fn lemma_trim_start(s: Seq<char>) -> (from: int)
    ensures
        0 <= from <= s.len(),
        text::trim_start(s) == s.skip(from),
        forall|i: int| 0 <= i < from ==> text::white_space(#[trigger] s[i]),
        from < s.len() ==> !text::white_space(s[from]),
    decreases s.len(),
{
    if s.len() > 0 && text::white_space(s[0]) {
        let rest = s.drop_first();
        let from = lemma_trim_start(rest) + 1;
        assert(rest.skip(from - 1) =~= s.skip(from));
        assert forall|i: int| 0 <= i < from implies text::white_space(#[trigger] s[i]) by {
            if i > 0 {
                assert(rest[i - 1] == s[i]);
            }
        }
        from
    } else {
        assert(s.skip(0) =~= s);
        0
    }
}

proof fn lemma_trim_end(s: Seq<char>) -> (len: int)
    ensures
        0 <= len <= s.len(),
        text::trim_end(s) == s.take(len),
        forall|i: int| len <= i < s.len() ==> text::white_space(#[trigger] s[i]),
        len > 0 ==> !text::white_space(s[len - 1]),
    decreases s.len(),
{
    if s.len() > 0 && text::white_space(s.last()) {
        let rest = s.drop_last();
        let len = lemma_trim_end(rest);
        assert(rest.take(len) =~= s.take(len));
        assert forall|i: int| len <= i < s.len() implies text::white_space(#[trigger] s[i]) by {
            if i < s.len() - 1 {
                assert(rest[i] == s[i]);
            }
        }
        len
    } else {
        assert(s.take(s.len() as int) =~= s);
        s.len() as int
    }
}

/// The last digit of a number stands for its remainder by ten, and what stands
/// before it is the number of the tens, where there are any.
pub proof fn law_decimal_digits(n: nat)
    ensures
        text::decimal_of(n).len() > 0,
        text::decimal_of(n).last() as int == '0' as int + n % 10,
        text::decimal_of(n).drop_last() == if n < 10 {
            Seq::<char>::empty()
        } else {
            text::decimal_of(n / 10)
        },
{
    reveal_strlit("0");
    reveal_strlit("1");
    reveal_strlit("2");
    reveal_strlit("3");
    reveal_strlit("4");
    reveal_strlit("5");
    reveal_strlit("6");
    reveal_strlit("7");
    reveal_strlit("8");
    reveal_strlit("9");
    let digit = text::digit_of(n % 10);
    assert(digit.len() == 1 && digit[0] as int == '0' as int + n % 10);
    if n >= 10 {
        assert((text::decimal_of(n / 10) + digit).drop_last() =~= text::decimal_of(n / 10));
    } else {
        assert(digit.drop_last() =~= Seq::<char>::empty());
    }
}

/// A window shows as many characters as fit and are there, from where it starts.
pub proof fn law_window_shows_what_fits(s: Seq<char>, start: int, width: int)
    requires
        0 <= start,
        0 <= width,
    ensures
        ({
            let shown = text::window_of(s, start, width);
            let there = if start < s.len() {
                s.len() - start
            } else {
                0
            };
            &&& shown.len() == if width < there {
                width
            } else {
                there
            }
            &&& forall|i: int| 0 <= i < shown.len() ==> #[trigger] shown[i] == s[start + i]
        }),
{
}

/// A mask is a row of bullets, as many as asked for.
pub proof fn law_mask_is_bullets(n: nat)
    ensures
        text::mask_of(n).len() == n,
        forall|i: int| 0 <= i < n ==> #[trigger] text::mask_of(n)[i] == '\u{2022}',
{
}

/// The list shows the names of all entries in their order, with the selected one
/// marked where there is one, in a border that tells how many there are and
/// whether they have changed.
pub proof fn law_list_shows_the_names(
    app: AppView,
    text: ScreenText,
    list: Rect,
    details: Rect,
    help: Rect,
)
    ensures
        ({
            let ops = draw::pane_ops(app, text, list, details, help);
            &&& ops.len() == 3
            &&& ops[0] matches DrawOpView::Render { widget, area } && area == list && (
            widget matches WidgetView::List { border, items, selected, highlight } && {
                &&& items.len() == text.entries@.len()
                &&& forall|i: int|
                    0 <= i < items.len() ==> #[trigger] items[i] == text.entries@[i].name@
                &&& selected == if app.entries.len() > 0 {
                    Some(app.selected)
                } else {
                    None
                }
                &&& border.color is None
                &&& app.dirty ==> border.title == " Entries ("@ + text::decimal_of(
                    app.entries.len(),
                ) + ")"@ + " *"@ + " "@
                &&& !app.dirty ==> border.title == " Entries ("@ + text::decimal_of(
                    app.entries.len(),
                ) + ")"@ + ""@ + " "@
                &&& highlight.foreground == Color::Black
                &&& highlight.background == Color::Cyan
                &&& highlight.bold
                &&& highlight.symbol == "> "@
            })
        }),
{
}

/// Whether the line is a bold label with a value behind it.
pub open spec fn is_line(line: Seq<SpanView>, label: Seq<char>, value: Seq<char>) -> bool {
    &&& line.len() == 2
    &&& line[0].text == label
    &&& line[0].bold
    &&& line[1].text == value
    &&& !line[1].bold
}

/// The details are those of the entry at the selected place, whichever that is: its
/// name, user name, URL and realm, and eight bullets for its password. Where there
/// is no entry they say so.
pub proof fn law_details_are_of_the_selected_entry(
    app: AppView,
    text: ScreenText,
    list: Rect,
    details: Rect,
    help: Rect,
)
    requires
        app.wf(),
        text.entries@.len() == app.entries.len(),
    ensures
        draw::pane_ops(app, text, list, details, help)[1] matches DrawOpView::Render {
            widget,
            area,
        } && area == details && (widget matches WidgetView::Paragraph {
            content,
            block,
            color,
            wrap,
        } && (content matches ContentView::Lines(lines) && {
            let entry = text.entries@[app.selected];
            &&& block matches Some(border) && border.title == " Details "@ && border.color is None
            &&& color is None
            &&& wrap == Wrap::Fold
            &&& app.entries.len() > 0 ==> {
                &&& lines.len() == 5
                &&& is_line(lines[0], "Name: "@, entry.name@)
                &&& is_line(lines[1], "Username: "@, entry.username@)
                &&& is_line(lines[2], "Password: "@, Seq::new(8, |i: int| '\u{2022}'))
                &&& is_line(
                    lines[3],
                    "URL: "@,
                    match entry.url {
                        Some(url) => url@,
                        None => Seq::empty(),
                    },
                )
                &&& is_line(
                    lines[4],
                    "Realm: "@,
                    match entry.realm {
                        Some(realm) => realm@,
                        None => Seq::empty(),
                    },
                )
            }
            &&& app.entries.len() == 0 ==> {
                &&& lines.len() == 1
                &&& lines[0].len() == 1
                &&& lines[0][0].text
                    == "The vault is empty. Press n or Insert to create an entry."@
                &&& !lines[0][0].bold
            }
        })),
{
    assert(text::mask_of(8) =~= Seq::new(8, |i: int| '\u{2022}'));
}

/// The line at the bottom is the message in yellow, or the keys of the list in gray.
pub proof fn law_bottom_line(
    app: AppView,
    text: ScreenText,
    list: Rect,
    details: Rect,
    help: Rect,
)
    ensures
        draw::pane_ops(app, text, list, details, help)[2] == (DrawOpView::Render {
            widget: WidgetView::Paragraph {
                content: ContentView::Plain(
                    match app.message {
                        Some(message) => message,
                        None =>
                            "\u{2191}/\u{2193} move  c copy  n/Ins new  e/Enter edit  d/Del delete  q/Esc quit"@,
                    },
                ),
                block: None,
                color: if app.message is Some {
                    Some(Color::Yellow)
                } else {
                    Some(Color::Gray)
                },
                wrap: Wrap::Cut,
            },
            area: help,
        }),
{
}

/// Whether the area lies in the middle of another one: with that size, as far as
/// there is room for it, and with the same space on both sides, or one cell less on
/// the left or the top.
pub open spec fn is_in_the_middle(inner: Rect, width: int, height: int, area: Rect) -> bool {
    let left = inner.x - area.x;
    let right = area.x + area.width - (inner.x + inner.width);
    let top = inner.y - area.y;
    let bottom = area.y + area.height - (inner.y + inner.height);
    &&& inner.width == if width < area.width {
        width
    } else {
        area.width as int
    }
    &&& inner.height == if height < area.height {
        height
    } else {
        area.height as int
    }
    &&& 0 <= left <= right <= left + 1
    &&& 0 <= top <= bottom <= top + 1
}

/// Whether these steps blank an area in the middle of another one and show a text
/// there, in a border with a title.
pub open spec fn is_question(
    ops: Seq<DrawOpView>,
    title: Seq<char>,
    text: Seq<char>,
    width: int,
    height: int,
    area: Rect,
) -> bool {
    &&& ops.len() == 2
    &&& ops[0] matches DrawOpView::Render { widget, area: inner } && widget is Clear
        && is_in_the_middle(inner, width, height, area) && ops[1] == (DrawOpView::Render {
        widget: WidgetView::Paragraph {
            content: ContentView::Plain(text),
            block: Some((BlockView { title, color: None })),
            color: None,
            wrap: Wrap::FoldTrimmed,
        },
        area: inner,
    })
}

/// A question blanks its place in the middle of the screen and shows its words.
pub proof fn law_popup_is_a_question(
    title: Seq<char>,
    text: Seq<char>,
    width: u16,
    height: u16,
    area: Rect,
)
    requires
        layout::can_center(width, height, area),
    ensures
        is_question(
            draw::popup(title, text, width, height, area),
            title,
            text,
            width as int,
            height as int,
            area,
        ),
{
}

/// The screen is split into an upper part and two lines at the bottom, and the upper
/// part into list and details. Each of the three is drawn in its part, in that
/// order, and then what is open in front: nothing, one of the two questions in its
/// words, or the form.
pub proof fn law_screen_is_drawn_in_its_parts(
    app: AppView,
    text: ScreenText,
    area: Rect,
    ops: Seq<DrawOpView>,
) -> (parts: (Seq<Rect>, Seq<Rect>, Seq<DrawOpView>))
    requires
        draw::draws_screen(app, text, area, ops),
        draw::front_fits(app, area),
    ensures
        ({
            let (chunks, body, front) = parts;
            &&& chunks.len() == 2
            &&& body.len() == 2
            &&& layout::layout_outcome(
                Direction::Vertical,
                seq![Constraint::Min(5), Constraint::Length(2)],
                area,
                chunks,
            )
            &&& layout::layout_outcome(
                Direction::Horizontal,
                seq![Constraint::Percentage(40), Constraint::Percentage(60)],
                chunks[0],
                body,
            )
            &&& ops == draw::pane_ops(app, text, body[0], body[1], chunks[1]) + front
            &&& app.mode is Browse ==> front.len() == 0
            &&& app.mode is ConfirmDelete ==> is_question(
                front,
                " Delete entry? "@,
                "Delete selected entry?  y yes  n/Esc no"@,
                54,
                5,
                area,
            )
            &&& app.mode is ConfirmExit ==> is_question(
                front,
                " Unsaved changes "@,
                "s save  d discard  Esc keep editing"@,
                52,
                5,
                area,
            )
            &&& app.mode matches ModeView::Edit(form) ==> draw::draws_form(
                area,
                form,
                text.form,
                front,
            )
        }),
{
    let (chunks, body, front) = choose|chunks: Seq<Rect>, body: Seq<Rect>, front: Seq<DrawOpView>|
        draw::draws_screen_in(app, text, area, ops, chunks, body, front);
    assert(draw::screen_constraints() =~= seq![Constraint::Min(5), Constraint::Length(2)]);
    assert(draw::body_constraints() =~= seq![
        Constraint::Percentage(40),
        Constraint::Percentage(60),
    ]);
    (chunks, body, front)
}

/// The form is drawn in the middle of the screen: its place is blanked and gets a
/// border that tells a new entry from an edited one, and inside it come, one below
/// the other, the five fields with their labels and texts, the password as bullets,
/// and a line with what is wrong in red, or with the keys in gray.
pub proof fn law_form_is_drawn_in_the_middle(
    area: Rect,
    form: FormView,
    text: FormText,
    ops: Seq<DrawOpView>,
) -> (places: (Rect, Rect, Seq<Rect>))
    requires
        draw::draws_form(area, form, text, ops),
        draw::form_fits(area),
    ensures
        ({
            let (outer, inner, rows) = places;
            &&& is_in_the_middle(outer, 70, 21, area)
            &&& inner.x == outer.x + 2
            &&& inner.y == outer.y + 1
            &&& inner.width == if outer.width < 4 {
                0
            } else {
                outer.width - 4
            }
            &&& inner.height == if outer.height < 2 {
                0
            } else {
                outer.height - 2
            }
            &&& rows.len() == 6
            &&& layout::layout_outcome(
                Direction::Vertical,
                seq![
                    Constraint::Length(3),
                    Constraint::Length(3),
                    Constraint::Length(3),
                    Constraint::Length(3),
                    Constraint::Length(3),
                    Constraint::Min(1),
                ],
                inner,
                rows,
            )
            &&& ops == seq![
                DrawOpView::Render { widget: WidgetView::Clear, area: outer },
                DrawOpView::Render {
                    widget: WidgetView::Block(
                        (BlockView {
                            title: if form.editing is Some {
                                " Edit entry "@
                            } else {
                                " New entry "@
                            },
                            color: None,
                        }),
                    ),
                    area: outer,
                },
            ] + draw::field_ops(form, 0, "Name"@, text.name@, rows[0]) + draw::field_ops(
                form,
                1,
                "Username"@,
                text.username@,
                rows[1],
            ) + draw::field_ops(
                form,
                2,
                "Password"@,
                Seq::new(form.fields[2].len(), |i: int| '\u{2022}'),
                rows[2],
            ) + draw::field_ops(form, 3, "URL"@, text.url@, rows[3]) + draw::field_ops(
                form,
                4,
                "Realm"@,
                text.realm@,
                rows[4],
            ) + seq![
                DrawOpView::Render {
                    widget: WidgetView::Paragraph {
                        content: ContentView::Plain(
                            match form.error {
                                Some(message) => message,
                                None => "Tab/\u{2191}/\u{2193} field  Enter save  Esc cancel"@,
                            },
                        ),
                        block: None,
                        color: if form.error is Some {
                            Some(Color::Red)
                        } else {
                            Some(Color::Gray)
                        },
                        wrap: Wrap::Cut,
                    },
                    area: rows[5],
                },
            ]
        }),
{
    let rows = choose|rows: Seq<Rect>| draw::draws_form_in(area, form, text, ops, rows);
    assert(draw::form_constraints() =~= seq![
        Constraint::Length(3),
        Constraint::Length(3),
        Constraint::Length(3),
        Constraint::Length(3),
        Constraint::Length(3),
        Constraint::Min(1),
    ]);
    assert(text::mask_of(form.fields[2].len()) =~= Seq::new(
        form.fields[2].len(),
        |i: int| '\u{2022}',
    ));
    (draw::form_area(area), draw::form_inner(area), rows)
}

/// A field has its label in its border, in cyan where it is the active one, and
/// shows its text from the start, or, where it is active, from so far on that the
/// cursor is in view. The active field gets the cursor, on the character that it
/// stands before, where it is high enough.
pub proof fn law_field_shows_its_text(
    form: FormView,
    field: int,
    label: Seq<char>,
    value: Seq<char>,
    row: Rect,
)
    requires
        form.wf(),
    ensures
        ({
            let ops = draw::field_ops(form, field, label, value, row);
            let active = field == form.active;
            let width = if row.width < 2 {
                0
            } else {
                row.width - 2
            };
            let start = if active && width > 0 && form.cursor > width - 1 {
                form.cursor - (width - 1)
            } else if active && width == 0 {
                form.cursor
            } else {
                0
            };
            &&& ops.len() == if active && row.height >= 3 {
                2nat
            } else {
                1nat
            }
            &&& ops[0] matches DrawOpView::Render { widget, area } && area == row && (
            widget matches WidgetView::Paragraph { content, block, color, wrap } && {
                &&& block == Some(
                    (BlockView {
                        title: " "@ + label + " "@,
                        color: if active {
                            Some(Color::Cyan)
                        } else {
                            None
                        },
                    }),
                )
                &&& color is None
                &&& wrap == Wrap::Cut
                &&& content matches ContentView::Plain(shown) && {
                    &&& shown.len() <= width
                    &&& shown.len() < width ==> shown.len() + start >= value.len()
                    &&& shown.len() + start <= value.len() || shown.len() == 0
                    &&& forall|i: int|
                        0 <= i < shown.len() ==> #[trigger] shown[i] == value[start + i]
                }
            })
            &&& active && row.height >= 3 ==> ops[1] == (DrawOpView::SetCursor {
                x: row.x + 1 + (form.cursor - start),
                y: row.y + 1,
            })
        }),
{
}

/// Every screen that starts at its first cell has room for what is in front.
pub proof fn law_screens_have_room(app: AppView, area: Rect)
    requires
        area.x == 0,
        area.y == 0,
    ensures
        draw::front_fits(app, area),
{
}

/// The texts of the interface are those of its entries, in their order, and of the
/// form that is open.
pub proof fn law_texts_are_those_of_the_interface(app: AppView, text: ScreenText, i: int)
    requires
        app.wf(),
        draw::is_screen_text_of(app, text),
    ensures
        text.entries@.len() == app.entries.len(),
        0 <= i < app.entries.len() ==> {
            &&& text.entries@[i].name@ == app.entries[i].name
            &&& text.entries@[i].username@ == app.entries[i].username
            &&& app.entries[i].url == entry::text_view(text.entries@[i].url)
            &&& app.entries[i].realm == entry::text_view(text.entries@[i].realm)
        },
        app.mode matches ModeView::Edit(form) ==> {
            &&& text.form.name@ == form.fields[0]
            &&& text.form.username@ == form.fields[1]
            &&& text.form.url@ == form.fields[3]
            &&& text.form.realm@ == form.fields[4]
        },
        !(app.mode is Edit) ==> text.form.name@.len() == 0 && text.form.username@.len() == 0
            && text.form.url@.len() == 0 && text.form.realm@.len() == 0,
{
    let _ = app.entries[i];
}

/// The views of what is drawn hold what stands in its fields.
pub proof fn law_views_of_drawing(
    span: Span,
    block: Block,
    highlight: Highlight,
    words: String,
    lines: Vec<Vec<Span>>,
    widget: Widget,
    op: DrawOp,
)
    ensures
        span@.text == span.text@ && span@.bold == span.bold,
        block@.title == block.title@ && block@.color == block.color,
        highlight@.foreground == highlight.foreground,
        highlight@.background == highlight.background,
        highlight@.bold == highlight.bold,
        highlight@.symbol == highlight.symbol@,
        Content::Plain(words)@ == ContentView::Plain(words@),
        Content::Lines(lines)@ matches ContentView::Lines(shown) && {
            &&& shown.len() == lines@.len()
            &&& forall|i: int|
                0 <= i < shown.len() ==> (#[trigger] shown[i]).len() == lines@[i]@.len()
            &&& forall|i: int, j: int|
                0 <= i < shown.len() && 0 <= j < shown[i].len() ==> #[trigger] shown[i][j]
                    == lines@[i]@[j]@
        },
        widget is Clear <==> widget@ is Clear,
        widget matches Widget::Block(border) ==> widget@ == WidgetView::Block(border@),
        widget matches Widget::List { border, items, selected, highlight: mark } ==> (
        widget@ matches WidgetView::List {
            border: border_view,
            items: item_views,
            selected: place,
            highlight: mark_view,
        } && {
            &&& border_view == border@
            &&& item_views.len() == items@.len()
            &&& forall|i: int| 0 <= i < items@.len() ==> #[trigger] item_views[i] == items@[i]@
            &&& selected matches Some(index) ==> place == Some(index as int)
            &&& selected is None ==> place is None
            &&& mark_view == mark@
        }),
        widget matches Widget::Paragraph { content, block: border, color, wrap } ==> (
        widget@ matches WidgetView::Paragraph {
            content: content_view,
            block: border_view,
            color: color_view,
            wrap: wrap_view,
        } && {
            &&& content_view == content@
            &&& border matches Some(inner) ==> border_view == Some(inner@)
            &&& border is None ==> border_view is None
            &&& color_view == color
            &&& wrap_view == wrap
        }),
        op matches DrawOp::Render { widget: drawn, area } ==> op@ == (DrawOpView::Render {
            widget: drawn@,
            area,
        }),
        op matches DrawOp::SetCursor { x, y } ==> op@ == (DrawOpView::SetCursor {
            x: x as int,
            y: y as int,
        }),
{
}

/// The view of a list of drawing steps holds the views of the steps in their order.
pub proof fn law_views_of_steps(ops: Seq<DrawOp>)
    ensures
        draw::op_views(ops).len() == ops.len(),
        forall|i: int| 0 <= i < ops.len() ==> #[trigger] draw::op_views(ops)[i] == ops[i]@,
{
}

/// The views of endings and of the steps of saving hold what is in them.
pub proof fn law_views_of_saving(words: String)
    ensures
        Ending::Save@ == EndingView::Save,
        Ending::Tell(words)@ == EndingView::Tell(words@),
        Ending::Nothing@ == EndingView::Nothing,
        SaveEvent::Chosen@ == SaveEventView::Chosen,
        SaveEvent::Stored@ == SaveEventView::Stored,
        SaveEvent::Failed(words)@ == SaveEventView::Failed(words@),
        SaveEvent::Answer(words)@ == SaveEventView::Answer(words@),
        SaveAction::Store@ == SaveActionView::Store,
        SaveAction::Ask(words)@ == SaveActionView::Ask(words@),
        SaveAction::Report(words)@ == SaveActionView::Report(words@),
        SaveAction::GiveUp(words)@ == SaveActionView::GiveUp(words@),
{
}

/// Leaving to save leads to saving, leaving to discard is told, and leaving with
/// nothing changed leads to nothing.
pub proof fn law_endings()
    ensures
        save::ending_of(Exit::Save) == EndingView::Save,
        save::ending_of(Exit::Discard) == EndingView::Tell("Changes discarded."@),
        save::ending_of(Exit::Clean) == EndingView::Nothing,
{
}

/// The answers that mean no are `n`, `N`, `no` and `No`, with any white space around
/// them, and no others.
pub proof fn law_answers_that_decline(answer: Seq<char>)
    ensures
        save::is_no(answer) <==> answer == seq!['n'] || answer == seq!['N'] || answer == seq![
            'n',
            'o',
        ] || answer == seq!['N', 'o'],
{
    reveal_strlit("n");
    reveal_strlit("N");
    reveal_strlit("no");
    reveal_strlit("No");
    assert("n"@ =~= seq!['n']);
    assert("N"@ =~= seq!['N']);
    assert("no"@ =~= seq!['n', 'o']);
    assert("No"@ =~= seq!['N', 'o']);
}

/// What is said while saving: how many entries went where, or why they did not, or
/// that the changes are lost.
pub proof fn law_words_of_saving(count: nat, file: Seq<char>, reason: Seq<char>, line: Seq<char>)
    ensures
        save::save_step(SaveEventView::Chosen, count, file) == SaveActionView::Store,
        save::save_step(SaveEventView::Stored, count, file) == SaveActionView::Report(
            "Saved "@ + text::decimal_of(count) + " entries to "@ + file + "."@,
        ),
        save::save_step(SaveEventView::Failed(reason), count, file) == SaveActionView::Ask(
            "Could not save the vault: "@ + reason,
        ),
        save::is_no(text::trimmed(line)) ==> save::save_step(
            SaveEventView::Answer(line),
            count,
            file,
        ) == SaveActionView::GiveUp("Changes discarded."@),
        !save::is_no(text::trimmed(line)) ==> save::save_step(
            SaveEventView::Answer(line),
            count,
            file,
        ) == SaveActionView::Store,
{
}

} // verus!
