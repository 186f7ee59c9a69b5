//! Project form overlay: its title and the lines it shows.

use vstd::prelude::*;

use super::lines::{Line, LineView, blank_line, blank_view, concat, line_of, lines_view, pieces, plain, push_line, sat, sat_sub};
use super::text::truncated;
use super::theme::{ACCENT, Color, HIGHLIGHT_FG, MUTED, Span, Style, TEXT, bold_look, fg, fg_style, plain_look, spans_view};
use crate::text::push_char;
use crate::tui::app::{ProjectFormField, ProjectFormMode, ProjectFormState, ProjectFormView};

pub use super::text::truncate_str;

verus! {

/// The label of a project form field.
pub open spec fn project_field_label(f: ProjectFormField) -> Seq<char> {
    match f {
        ProjectFormField::Name => "名称"@,
        ProjectFormField::Description => "描述"@,
    }
}

/// The placeholder of a project form field.
pub open spec fn project_field_placeholder(f: ProjectFormField) -> Seq<char> {
    match f {
        ProjectFormField::Name => "输入项目名称..."@,
        ProjectFormField::Description => "输入项目描述（可选）..."@,
    }
}

/// The line of a field: marker and label (accented when focused), then the
/// value with a cursor when focused, or the placeholder when empty and not
/// focused, cut to `fw` characters.
pub open spec fn field_line(f: ProjectFormField, value: Seq<char>, focused: bool, fw: nat) -> LineView {
    let ls = if focused { bold_look(ACCENT) } else { fg_style(MUTED) };
    let empty_idle = value.len() == 0 && !focused;
    let shown = if empty_idle {
        project_field_placeholder(f)
    } else if focused {
        value.push('│')
    } else {
        value
    };
    let vs = if empty_idle {
        fg_style(MUTED)
    } else if focused {
        bold_look(TEXT)
    } else {
        fg_style(TEXT)
    };
    pieces(
        seq![
            ("  "@ + (if focused { "▸"@ } else { " "@ }) + " "@, ls),
            (project_field_label(f) + ": "@, ls),
            (truncated(shown, fw), vs),
        ],
    )
}

/// Whether the form edits an existing project.
pub open spec fn editing(f: ProjectFormView) -> bool {
    f.mode != ProjectFormMode::Create
}

/// The key hints of the form.
pub open spec fn form_keys(edit: bool) -> LineView {
    let k = bold_look(Color::Green);
    pieces(
        seq![
            ("  Tab "@, k),
            ("切换字段  "@, plain_look()),
            ("Enter "@, k),
            (if edit { "保存"@ } else { "创建"@ }, plain_look()),
            ("  "@, plain_look()),
            ("Esc "@, bold_look(HIGHLIGHT_FG)),
            ("取消"@, plain_look()),
        ],
    )
}

/// Width of a field value: the view less the label and borders, at least 20.
pub open spec fn field_width(w: nat) -> nat {
    let x = sat(sat(w, 8), 6);
    if x >= 20 { x } else { 20 }
}

/// Every line of the form, `w` cells wide.
pub open spec fn form_lines(f: ProjectFormView, w: nat) -> Seq<LineView> {
    let fw = field_width(w);
    seq![
        blank_view(),
        field_line(ProjectFormField::Name, f.name, f.focused_field == ProjectFormField::Name, fw),
        blank_view(),
        field_line(ProjectFormField::Description, f.description, f.focused_field == ProjectFormField::Description, fw),
        blank_view(),
    ] + match f.error {
        Some(e) => seq![pieces(seq![(" ✖ "@, fg_style(Color::Red)), (e, fg_style(Color::Red))])],
        None => Seq::empty(),
    } + seq![blank_view(), form_keys(editing(f))]
}

/// The title of the form's frame.
pub open spec fn form_title(f: ProjectFormView) -> Seq<char> {
    if editing(f) {
        " ✏  编辑项目 "@
    } else {
        " ✚  新建项目 "@
    }
}

fn field_line_exec(f: ProjectFormField, value: &String, focused: bool, fw: usize) -> (r: Line)
    ensures
        r@ == field_line(f, value@, focused, fw as nat),
{
    let ls = if focused {
        Style { fg: Some(ACCENT), bg: None, bold: true, crossed_out: false, italic: false }
    } else {
        fg(MUTED)
    };
    let empty_idle = value.unicode_len() == 0 && !focused;
    let shown = if empty_idle {
        String::from_str(f.placeholder())
    } else if focused {
        let mut d = value.clone();
        push_char(&mut d, '│');
        d
    } else {
        value.clone()
    };
    let vs = if empty_idle {
        fg(MUTED)
    } else if focused {
        Style { fg: Some(TEXT), bg: None, bold: true, crossed_out: false, italic: false }
    } else {
        fg(TEXT)
    };
    let marker = if focused { "  ▸ " } else { "    " };
    let v = vec![
        Span { content: String::from_str(marker), style: ls },
        Span { content: concat(f.label(), ": "), style: ls },
        Span { content: super::text::truncate_str(shown.as_str(), fw), style: vs },
    ];
    proof {
        reveal_strlit("  ▸ ");
        reveal_strlit("    ");
        reveal_strlit("  ");
        reveal_strlit("▸");
        reveal_strlit(" ");
        assert("  ▸ "@ =~= "  "@ + "▸"@ + " "@);
        assert("    "@ =~= "  "@ + " "@ + " "@);
    }
    assert(spans_view(v@) =~= field_line(f, value@, focused, fw as nat).spans);
    line_of(v)
}


/// The project form overlay, drawn from the form state.
pub struct ProjectForm<'a> {
    /// The form state shown.
    pub state: &'a ProjectFormState,
}

impl<'a> ProjectForm<'a> {
    /// The overlay for `state`.
    pub fn new(state: &'a ProjectFormState) -> (r: Self)
        ensures
            r.state == state,
    {
        ProjectForm { state }
    }

    /// The title of the frame (see `form_title`).
    pub fn title(&self) -> (r: String)
        ensures
            r@ == form_title(self.state@),
    {
        if self.state.mode != ProjectFormMode::Create {
            String::from_str(" ✏  编辑项目 ")
        } else {
            String::from_str(" ✚  新建项目 ")
        }
    }

    /// The lines of the form, `width` cells wide (see `form_lines`).
    pub fn lines(&self, width: usize) -> (r: Vec<Line>)
        ensures
            lines_view(r@) == form_lines(self.state@, width as nat),
    {
        let f = self.state;
        let a = sat_sub(width, 8);
        let b = sat_sub(a, 6);
        let fw = if b >= 20 { b } else { 20 };
        let mut out: Vec<Line> = Vec::new();
        assert(lines_view(out@) =~= Seq::<LineView>::empty());
        push_line(&mut out, blank_line());
        push_line(&mut out, field_line_exec(ProjectFormField::Name, &f.name, f.focused_field == ProjectFormField::Name, fw));
        push_line(&mut out, blank_line());
        push_line(&mut out, field_line_exec(
            ProjectFormField::Description,
            &f.description,
            f.focused_field == ProjectFormField::Description,
            fw,
        ));
        push_line(&mut out, blank_line());
        let ghost mid = lines_view(out@);
        if let Some(e) = &f.error {
            let v = vec![
                Span { content: String::from_str(" ✖ "), style: fg(Color::Red) },
                Span { content: e.clone(), style: fg(Color::Red) },
            ];
            assert(spans_view(v@) =~= seq![(" ✖ "@, fg_style(Color::Red)), (e@, fg_style(Color::Red))]);
            push_line(&mut out, line_of(v));
        }
        push_line(&mut out, blank_line());
        let edit = f.mode != ProjectFormMode::Create;
        let k = Style { fg: Some(Color::Green), bg: None, bold: true, crossed_out: false, italic: false };
        let keys = vec![
            Span { content: String::from_str("  Tab "), style: k },
            Span { content: String::from_str("切换字段  "), style: plain() },
            Span { content: String::from_str("Enter "), style: k },
            Span { content: String::from_str(if edit { "保存" } else { "创建" }), style: plain() },
            Span { content: String::from_str("  "), style: plain() },
            Span {
                content: String::from_str("Esc "),
                style: Style { fg: Some(HIGHLIGHT_FG), bg: None, bold: true, crossed_out: false, italic: false },
            },
            Span { content: String::from_str("取消"), style: plain() },
        ];
        assert(spans_view(keys@) =~= form_keys(edit).spans);
        push_line(&mut out, line_of(keys));
        assert(lines_view(out@) =~= form_lines(f@, width as nat));
        out
    }
}

} // verus!
