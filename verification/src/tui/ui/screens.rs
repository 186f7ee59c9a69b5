//! The title bar, the status bar, the task form, the help view and the
//! dialogs: the lines each shows.

use vstd::prelude::*;

use super::lines::{
    Line, LineView, blank_line, blank_view, concat, line_of, lines_view, pieces, plain, push_line,
    sat, sat_sub, styled_line, styled_view, text_line, text_view,
};
use super::text::truncated;
use super::theme::{Color, Span, Style, bold_look, fg, fg_style, hint_look, plain_look, spans_view};
use crate::text::{append_str, push_char};
use crate::tui::app::{
    FormField, FormMode, InputMode, RightPaneView, SortMode, TaskFormState, TaskFormView,
    task_field_label, task_field_placeholder,
};

verus! {

/// A style with a background only.
pub open spec fn bg_look(c: Color) -> Style {
    Style { fg: None, bg: Some(c), bold: false, crossed_out: false, italic: false }
}

/// A style with both colours.
pub open spec fn fg_bg_look(f: Color, b: Color) -> Style {
    Style { fg: Some(f), bg: Some(b), bold: false, crossed_out: false, italic: false }
}

/// A line of pieces over a background colour.
pub open spec fn bar_view(s: Seq<(Seq<char>, Style)>, b: Color) -> LineView {
    LineView { spans: s, style: bg_look(b) }
}

/// The name of the view shown on the right.
pub open spec fn view_name(v: RightPaneView) -> Seq<char> {
    match v {
        RightPaneView::TaskList => "任务列表"@,
        RightPaneView::TaskDetail => "任务详情"@,
        RightPaneView::TaskForm => "新建/编辑任务"@,
        RightPaneView::Help => "帮助"@,
    }
}

/// The label of a sort mode.
pub open spec fn sort_name(m: SortMode) -> Seq<char> {
    match m {
        SortMode::Created => "创建时间"@,
        SortMode::Priority => "优先级"@,
        SortMode::Updated => "更新时间"@,
    }
}

/// The title bar: the program, the view, the search being typed (or the
/// filter in force) and, on the task list when not searching, the sort
/// order; over dark grey.
pub open spec fn title_bar(v: RightPaneView, searching: bool, query: Option<Seq<char>>, sort: SortMode) -> LineView {
    let base = seq![
        (" pinchtask TUI "@, bold_look(Color::Cyan)),
        ("  "@, plain_look()),
        ("["@ + view_name(v) + "]"@, fg_style(Color::Yellow)),
    ];
    let search = if searching {
        seq![
            ("  "@, plain_look()),
            ("搜索: "@, fg_style(Color::Green)),
            (match query { Some(q) => q, None => Seq::empty() }.push('│'), bold_look(Color::White)),
        ]
    } else {
        match query {
            Some(q) => if q.len() > 0 {
                seq![("  "@, plain_look()), ("过滤: "@ + q, fg_style(Color::Green))]
            } else {
                Seq::empty()
            },
            None => Seq::empty(),
        }
    };
    let sorting = if v == RightPaneView::TaskList && !searching {
        seq![("  "@, plain_look()), ("排序: "@ + sort_name(sort), fg_style(Color::DarkGray))]
    } else {
        Seq::empty()
    };
    bar_view(base + search + sorting, Color::DarkGray)
}

/// The key hints of a view.
pub open spec fn view_hints(v: RightPaneView, typing: bool) -> Seq<char> {
    match v {
        RightPaneView::TaskList => " ↑↓/jk 移动  Enter 详情  n 新建  d 删除  r 刷新  / 搜索  Tab 排序  ? 帮助  q 退出"@,
        RightPaneView::TaskDetail => if typing {
            " Enter 确认  Esc 取消  Backspace 删除"@
        } else {
            " ↑↓/jk 移动  Space 完成  a 添加  e 编辑  E 编辑任务  d 删除  Ctrl+J/K 移动顺序  ←/Esc 返回"@
        },
        RightPaneView::TaskForm => " Tab 切换字段  Enter 提交  Esc 取消"@,
        RightPaneView::Help => " Esc/? 返回  q 退出"@,
    }
}

/// The status bar: the error, else the message, else the view's key hints;
/// over dark grey.
pub open spec fn status_bar(err: Option<Seq<char>>, msg: Option<Seq<char>>, v: RightPaneView, typing: bool) -> LineView {
    match err {
        Some(e) => bar_view(seq![(" ✖ "@, fg_bg_look(Color::White, Color::Red)), (e, fg_style(Color::Red))], Color::DarkGray),
        None => match msg {
            Some(m) => bar_view(seq![(" ℹ "@, fg_bg_look(Color::Black, Color::Cyan)), (m, fg_style(Color::Cyan))], Color::DarkGray),
            None => bar_view(seq![(view_hints(v, typing), fg_style(Color::DarkGray))], Color::DarkGray),
        },
    }
}

fn bar_line(v: Vec<Span>, b: Color) -> (r: Line)
    ensures
        r@ == bar_view(spans_view(v@), b),
{
    Line { spans: v, style: Style { fg: None, bg: Some(b), bold: false, crossed_out: false, italic: false } }
}

fn push_span(v: &mut Vec<Span>, t: String, st: Style)
    ensures
        spans_view(final(v)@) == spans_view(old(v)@).push((t@, st)),
{
    let ghost prev = v@;
    v.push(Span { content: t, style: st });
    assert(spans_view(v@) =~= spans_view(prev).push((t@, st)));
}

/// The title bar (see `title_bar`).
pub fn title_bar_line(view: RightPaneView, searching: bool, query: Option<&str>, sort: SortMode) -> (r: Line)
    ensures
        r@ == title_bar(view, searching, crate::models::opt_str_view(query), sort),
{
    let name = match view {
        RightPaneView::TaskList => "任务列表",
        RightPaneView::TaskDetail => "任务详情",
        RightPaneView::TaskForm => "新建/编辑任务",
        RightPaneView::Help => "帮助",
    };
    let mut v: Vec<Span> = Vec::new();
    assert(spans_view(v@) =~= Seq::empty());
    push_span(&mut v, String::from_str(" pinchtask TUI "), Style { fg: Some(Color::Cyan), bg: None, bold: true, crossed_out: false, italic: false });
    push_span(&mut v, String::from_str("  "), plain());
    let mut tag = concat("[", name);
    append_str(&mut tag, "]");
    push_span(&mut v, tag, fg(Color::Yellow));
    let ghost base = spans_view(v@);
    if searching {
        push_span(&mut v, String::from_str("  "), plain());
        push_span(&mut v, String::from_str("搜索: "), fg(Color::Green));
        let mut q = match query {
            Some(q) => String::from_str(q),
            None => String::new(),
        };
        push_char(&mut q, '│');
        push_span(&mut v, q, Style { fg: Some(Color::White), bg: None, bold: true, crossed_out: false, italic: false });
    } else {
        if let Some(q) = query {
            if q.unicode_len() > 0 {
                push_span(&mut v, String::from_str("  "), plain());
                push_span(&mut v, concat("过滤: ", q), fg(Color::Green));
            }
        }
    }
    let ghost mid = spans_view(v@);
    if view == RightPaneView::TaskList && !searching {
        push_span(&mut v, String::from_str("  "), plain());
        push_span(&mut v, concat("排序: ", sort.label()), fg(Color::DarkGray));
    }
    assert(spans_view(v@) =~= title_bar(view, searching, crate::models::opt_str_view(query), sort).spans);
    bar_line(v, Color::DarkGray)
}

/// The status bar (see `status_bar`).
pub fn status_bar_line(err: Option<&str>, msg: Option<&str>, view: RightPaneView, mode: InputMode) -> (r: Line)
    ensures
        r@ == status_bar(
            crate::models::opt_str_view(err),
            crate::models::opt_str_view(msg),
            view,
            mode != InputMode::Normal,
        ),
{
    let mut v: Vec<Span> = Vec::new();
    assert(spans_view(v@) =~= Seq::empty());
    match err {
        Some(e) => {
            push_span(&mut v, String::from_str(" ✖ "), Style { fg: Some(Color::White), bg: Some(Color::Red), bold: false, crossed_out: false, italic: false });
            push_span(&mut v, String::from_str(e), fg(Color::Red));
        },
        None => match msg {
            Some(m) => {
                push_span(&mut v, String::from_str(" ℹ "), Style { fg: Some(Color::Black), bg: Some(Color::Cyan), bold: false, crossed_out: false, italic: false });
                push_span(&mut v, String::from_str(m), fg(Color::Cyan));
            },
            None => {
                let hint = match view {
                    RightPaneView::TaskList => " ↑↓/jk 移动  Enter 详情  n 新建  d 删除  r 刷新  / 搜索  Tab 排序  ? 帮助  q 退出",
                    RightPaneView::TaskDetail => if mode != InputMode::Normal {
                        " Enter 确认  Esc 取消  Backspace 删除"
                    } else {
                        " ↑↓/jk 移动  Space 完成  a 添加  e 编辑  E 编辑任务  d 删除  Ctrl+J/K 移动顺序  ←/Esc 返回"
                    },
                    RightPaneView::TaskForm => " Tab 切换字段  Enter 提交  Esc 取消",
                    RightPaneView::Help => " Esc/? 返回  q 退出",
                };
                push_span(&mut v, String::from_str(hint), fg(Color::DarkGray));
            },
        },
    }
    assert(spans_view(v@) =~= status_bar(
        crate::models::opt_str_view(err),
        crate::models::opt_str_view(msg),
        view,
        mode != InputMode::Normal,
    ).spans);
    bar_line(v, Color::DarkGray)
}

/// The line of a form field: marker and label (accented when focused), then
/// the value with a cursor when focused, or the placeholder when empty and
/// not focused, cut to `fw` characters.
pub open spec fn form_field_line(label: Seq<char>, placeholder: Seq<char>, value: Seq<char>, focused: bool, fw: nat) -> LineView {
    let ls = if focused { bold_look(Color::Cyan) } else { fg_style(Color::DarkGray) };
    let empty_idle = value.len() == 0 && !focused;
    let shown = if empty_idle {
        placeholder
    } else if focused {
        value.push('│')
    } else {
        value
    };
    let vs = if empty_idle {
        fg_style(Color::DarkGray)
    } else if focused {
        bold_look(Color::White)
    } else {
        fg_style(Color::White)
    };
    pieces(
        seq![
            ("  "@ + (if focused { "▸"@ } else { " "@ }) + " "@, ls),
            (label + ": "@, ls),
            (truncated(shown, fw), vs),
        ],
    )
}

/// The value of a task form field.
pub open spec fn task_field_value(f: TaskFormView, field: FormField) -> Seq<char> {
    match field {
        FormField::Description => f.description,
        FormField::Context => f.context,
        FormField::Priority => f.priority,
        FormField::Tags => f.tags,
        FormField::Eta => f.eta,
    }
}

/// The field line and the blank line after it.
pub open spec fn task_field_block(f: TaskFormView, field: FormField, fw: nat) -> Seq<LineView> {
    seq![
        form_field_line(
            task_field_label(field),
            task_field_placeholder(field),
            task_field_value(f, field),
            f.focused_field == field,
            fw,
        ),
        blank_view(),
    ]
}

/// The key hints of a form.
pub open spec fn form_hints(edit: bool) -> LineView {
    let k = bold_look(Color::Green);
    pieces(
        seq![
            ("  Tab "@, k),
            ("切换字段  "@, plain_look()),
            ("Enter "@, k),
            (if edit { "保存"@ } else { "创建"@ }, plain_look()),
            ("  "@, plain_look()),
            ("Esc "@, bold_look(Color::Yellow)),
            ("取消"@, plain_look()),
        ],
    )
}

/// Every line of the task form, `w` cells wide; a notice when there is no
/// form.
pub open spec fn task_form_lines(f: Option<TaskFormView>, w: nat) -> Seq<LineView> {
    match f {
        None => seq![blank_view(), styled_view("  表单状态异常"@, fg_style(Color::Red))],
        Some(form) => {
            let x = sat(sat(w, 10), 6);
            let fw = if x >= 20 { x } else { 20 };
            seq![blank_view()] + task_field_block(form, FormField::Description, fw) + task_field_block(
                form,
                FormField::Context,
                fw,
            ) + task_field_block(form, FormField::Priority, fw) + task_field_block(form, FormField::Tags, fw)
                + task_field_block(form, FormField::Eta, fw) + match form.error {
                Some(e) => seq![pieces(seq![("  ✖ "@, fg_style(Color::Red)), (e, fg_style(Color::Red))])],
                None => Seq::empty(),
            } + seq![blank_view(), form_hints(form.mode != FormMode::Create)]
        },
    }
}

/// The title of the task form's frame.
pub open spec fn task_form_title(f: TaskFormView) -> Seq<char> {
    if f.mode != FormMode::Create {
        " ✏ 编辑任务 "@
    } else {
        " ✚ 新建任务 "@
    }
}

fn field_value(form: &TaskFormState, field: FormField) -> (r: &String)
    ensures
        r@ == task_field_value(form@, field),
{
    match field {
        FormField::Description => &form.description,
        FormField::Context => &form.context,
        FormField::Priority => &form.priority,
        FormField::Tags => &form.tags,
        FormField::Eta => &form.eta,
    }
}

fn push_field_block(out: &mut Vec<Line>, form: &TaskFormState, field: FormField, fw: usize)
    ensures
        lines_view(final(out)@) == lines_view(old(out)@) + task_field_block(form@, field, fw as nat),
{
    let ghost base = lines_view(out@);
    let value = field_value(form, field);
    let focused = form.focused_field == field;
    let ls = if focused {
        Style { fg: Some(Color::Cyan), bg: None, bold: true, crossed_out: false, italic: false }
    } else {
        fg(Color::DarkGray)
    };
    let empty_idle = value.unicode_len() == 0 && !focused;
    let shown = if empty_idle {
        String::from_str(field.placeholder())
    } else if focused {
        let mut d = value.clone();
        push_char(&mut d, '│');
        d
    } else {
        value.clone()
    };
    let vs = if empty_idle {
        fg(Color::DarkGray)
    } else if focused {
        Style { fg: Some(Color::White), bg: None, bold: true, crossed_out: false, italic: false }
    } else {
        fg(Color::White)
    };
    let marker = if focused { "  ▸ " } else { "    " };
    let v = vec![
        Span { content: String::from_str(marker), style: ls },
        Span { content: concat(field.label(), ": "), style: ls },
        Span { content: super::text::truncate_str(shown.as_str(), fw), style: vs },
    ];
    proof {
        reveal_strlit("  ▸ ");
        reveal_strlit("    ");
        reveal_strlit("  ");
        reveal_strlit("▸");
        reveal_strlit(" ");
        assert("  ▸ "@ =~= "  "@ + "▸"@ + " "@);
        assert("    "@ =~= "  "@ + " "@ + " "@);
    }
    assert(spans_view(v@) =~= form_field_line(
        task_field_label(field),
        task_field_placeholder(field),
        task_field_value(form@, field),
        focused,
        fw as nat,
    ).spans);
    let l = line_of(v);
    push_line(out, l);
    push_line(out, blank_line());
    assert(lines_view(out@) =~= base + task_field_block(form@, field, fw as nat));
}

/// The title of the task form's frame (see `task_form_title`).
pub fn task_form_title_text(form: &TaskFormState) -> (r: &'static str)
    ensures
        r@ == task_form_title(form@),
{
    if form.mode != FormMode::Create {
        " ✏ 编辑任务 "
    } else {
        " ✚ 新建任务 "
    }
}

/// The lines of the task form (see `task_form_lines`).
pub fn task_form_view_lines(form: Option<&TaskFormState>, width: usize) -> (r: Vec<Line>)
    ensures
        lines_view(r@) == task_form_lines(
            match form {
                Some(f) => Some(f@),
                None => None,
            },
            width as nat,
        ),
{
    let mut out: Vec<Line> = Vec::new();
    assert(lines_view(out@) =~= Seq::<LineView>::empty());
    match form {
        None => {
            push_line(&mut out, blank_line());
            push_line(&mut out, styled_line("  表单状态异常", fg(Color::Red)));
            assert(lines_view(out@) =~= task_form_lines(None, width as nat));
            out
        },
        Some(f) => {
            let x = sat_sub(sat_sub(width, 10), 6);
            let fw = if x >= 20 { x } else { 20 };
            push_line(&mut out, blank_line());
            push_field_block(&mut out, f, FormField::Description, fw);
            push_field_block(&mut out, f, FormField::Context, fw);
            push_field_block(&mut out, f, FormField::Priority, fw);
            push_field_block(&mut out, f, FormField::Tags, fw);
            push_field_block(&mut out, f, FormField::Eta, fw);
            let ghost mid = lines_view(out@);
            if let Some(e) = &f.error {
                let v = vec![
                    Span { content: String::from_str("  ✖ "), style: fg(Color::Red) },
                    Span { content: e.clone(), style: fg(Color::Red) },
                ];
                assert(spans_view(v@) =~= seq![("  ✖ "@, fg_style(Color::Red)), (e@, fg_style(Color::Red))]);
                push_line(&mut out, line_of(v));
            }
            push_line(&mut out, blank_line());
            let edit = f.mode != FormMode::Create;
            let k = Style { fg: Some(Color::Green), bg: None, bold: true, crossed_out: false, italic: false };
            let keys = vec![
                Span { content: String::from_str("  Tab "), style: k },
                Span { content: String::from_str("切换字段  "), style: plain() },
                Span { content: String::from_str("Enter "), style: k },
                Span { content: String::from_str(if edit { "保存" } else { "创建" }), style: plain() },
                Span { content: String::from_str("  "), style: plain() },
                Span {
                    content: String::from_str("Esc "),
                    style: Style { fg: Some(Color::Yellow), bg: None, bold: true, crossed_out: false, italic: false },
                },
                Span { content: String::from_str("取消"), style: plain() },
            ];
            assert(spans_view(keys@) =~= form_hints(edit).spans);
            push_line(&mut out, line_of(keys));
            assert(lines_view(out@) =~= task_form_lines(Some(f@), width as nat));
            out
        },
    }
}

/// A help entry: the keys in yellow, then what they do.
pub open spec fn help_entry(keys: Seq<char>, what: Seq<char>) -> LineView {
    pieces(seq![(keys, fg_style(Color::Yellow)), (what, plain_look())])
}

/// A help section title.
pub open spec fn help_title(t: Seq<char>) -> LineView {
    styled_view(t, bold_look(Color::Cyan))
}

/// The lines of the help view.
pub open spec fn help_lines() -> Seq<LineView> {
    seq![
        blank_view(),
        help_title("  全局快捷键:"@),
        help_entry("    q / Ctrl+C"@, "    退出 TUI"@),
        help_entry("    ?        "@, "    显示/关闭帮助"@),
        blank_view(),
        help_title("  任务列表视图:"@),
        help_entry("    ↑/j/k/↓  "@, "    上下移动选中"@),
        help_entry("    Enter    "@, "    查看任务详情"@),
        help_entry("    n        "@, "    新建任务"@),
        help_entry("    d        "@, "    删除选中任务"@),
        help_entry("    r        "@, "    刷新任务列表"@),
        help_entry("    /        "@, "    搜索过滤"@),
        help_entry("    Tab      "@, "    切换排序方式"@),
        help_entry("    Home/End "@, "    跳转到首/末"@),
        blank_view(),
        help_title("  任务详情视图:"@),
        help_entry("    ↑/j/k/↓  "@, "    上下移动条目"@),
        help_entry("    Space/x  "@, "    切换条目完成状态"@),
        help_entry("    a        "@, "    添加清单条目"@),
        help_entry("    Esc/←    "@, "    返回任务列表"@),
        blank_view(),
        help_title("  任务表单视图:"@),
        help_entry("    Tab      "@, "    切换到下一个字段"@),
        help_entry("    Shift+Tab"@, "切换到上一个字段"@),
        help_entry("    Enter    "@, "    提交表单（新建/保存）"@),
        help_entry("    Esc      "@, "    取消并返回"@),
        blank_view(),
        styled_view("  按 Esc 或 ? 返回上一视图"@, hint_look()),
    ]
}

fn entry(out: &mut Vec<Line>, keys: &str, what: &str)
    ensures
        lines_view(final(out)@) == lines_view(old(out)@).push(help_entry(keys@, what@)),
{
    let v = vec![
        Span { content: String::from_str(keys), style: fg(Color::Yellow) },
        Span { content: String::from_str(what), style: plain() },
    ];
    assert(spans_view(v@) =~= help_entry(keys@, what@).spans);
    push_line(out, line_of(v));
}

fn title(out: &mut Vec<Line>, t: &str)
    ensures
        lines_view(final(out)@) == lines_view(old(out)@).push(help_title(t@)),
{
    push_line(out, styled_line(t, Style { fg: Some(Color::Cyan), bg: None, bold: true, crossed_out: false, italic: false }));
}

/// The lines of the help view (see `help_lines`).
pub fn help_view_lines() -> (r: Vec<Line>)
    ensures
        lines_view(r@) == help_lines(),
{
    let mut out: Vec<Line> = Vec::new();
    assert(lines_view(out@) =~= Seq::<LineView>::empty());
    push_line(&mut out, blank_line());
    title(&mut out, "  全局快捷键:");
    entry(&mut out, "    q / Ctrl+C", "    退出 TUI");
    entry(&mut out, "    ?        ", "    显示/关闭帮助");
    push_line(&mut out, blank_line());
    title(&mut out, "  任务列表视图:");
    entry(&mut out, "    ↑/j/k/↓  ", "    上下移动选中");
    entry(&mut out, "    Enter    ", "    查看任务详情");
    entry(&mut out, "    n        ", "    新建任务");
    entry(&mut out, "    d        ", "    删除选中任务");
    entry(&mut out, "    r        ", "    刷新任务列表");
    entry(&mut out, "    /        ", "    搜索过滤");
    entry(&mut out, "    Tab      ", "    切换排序方式");
    entry(&mut out, "    Home/End ", "    跳转到首/末");
    push_line(&mut out, blank_line());
    title(&mut out, "  任务详情视图:");
    entry(&mut out, "    ↑/j/k/↓  ", "    上下移动条目");
    entry(&mut out, "    Space/x  ", "    切换条目完成状态");
    entry(&mut out, "    a        ", "    添加清单条目");
    entry(&mut out, "    Esc/←    ", "    返回任务列表");
    push_line(&mut out, blank_line());
    title(&mut out, "  任务表单视图:");
    entry(&mut out, "    Tab      ", "    切换到下一个字段");
    entry(&mut out, "    Shift+Tab", "切换到上一个字段");
    entry(&mut out, "    Enter    ", "    提交表单（新建/保存）");
    entry(&mut out, "    Esc      ", "    取消并返回");
    push_line(&mut out, blank_line());
    push_line(&mut out, styled_line("  按 Esc 或 ? 返回上一视图", Style {
        fg: Some(Color::DarkGray),
        bg: None,
        bold: false,
        crossed_out: false,
        italic: true,
    }));
    assert(lines_view(out@) =~= help_lines());
    out
}

/// The lines of the dialog that confirms deleting a task, showing the
/// task's description cut to 30 characters (empty when there is none).
pub open spec fn delete_confirm_lines(name: Option<Seq<char>>) -> Seq<LineView> {
    seq![
        blank_view(),
        styled_view("  确认删除此任务？"@, bold_look(Color::Red)),
        text_view("  "@ + match name {
            Some(n) => truncated(n, 30),
            None => Seq::empty(),
        }),
        blank_view(),
        pieces(
            seq![
                ("  y"@, bold_look(Color::Green)),
                (" 确认  "@, plain_look()),
                ("n/Esc"@, bold_look(Color::Yellow)),
                (" 取消"@, plain_look()),
            ],
        ),
    ]
}

/// The lines of the delete dialog (see `delete_confirm_lines`).
pub fn delete_confirm_view_lines(name: Option<&str>) -> (r: Vec<Line>)
    ensures
        lines_view(r@) == delete_confirm_lines(crate::models::opt_str_view(name)),
{
    let mut out: Vec<Line> = Vec::new();
    assert(lines_view(out@) =~= Seq::<LineView>::empty());
    push_line(&mut out, blank_line());
    push_line(&mut out, styled_line("  确认删除此任务？", Style { fg: Some(Color::Red), bg: None, bold: true, crossed_out: false, italic: false }));
    let shown = match name {
        Some(n) => super::text::truncate_str(n, 30),
        None => String::new(),
    };
    push_line(&mut out, text_line(concat("  ", shown.as_str())));
    push_line(&mut out, blank_line());
    let v = vec![
        Span { content: String::from_str("  y"), style: Style { fg: Some(Color::Green), bg: None, bold: true, crossed_out: false, italic: false } },
        Span { content: String::from_str(" 确认  "), style: plain() },
        Span { content: String::from_str("n/Esc"), style: Style { fg: Some(Color::Yellow), bg: None, bold: true, crossed_out: false, italic: false } },
        Span { content: String::from_str(" 取消"), style: plain() },
    ];
    assert(spans_view(v@) =~= delete_confirm_lines(crate::models::opt_str_view(name))[4].spans);
    push_line(&mut out, line_of(v));
    assert(lines_view(out@) =~= delete_confirm_lines(crate::models::opt_str_view(name)));
    out
}

/// The label of an inline input.
pub open spec fn input_label(m: InputMode) -> Seq<char> {
    match m {
        InputMode::Normal => Seq::empty(),
        InputMode::AddingItem => "添加条目"@,
        InputMode::EditingItemName => "编辑名称"@,
        InputMode::EditingItemDesc => "编辑描述"@,
        InputMode::AddingNote => "添加笔记"@,
        InputMode::AddingResourceName => "资源名称"@,
        InputMode::AddingResourceUrl => "资源 URL"@,
    }
}

/// The lines of the inline input: the label and the text typed so far with
/// a cursor, a blank line and the key hints.
pub open spec fn input_lines(m: InputMode, buffer: Seq<char>) -> Seq<LineView> {
    seq![
        pieces(seq![("  "@ + input_label(m) + ": "@, fg_style(Color::Cyan)), (buffer.push('│'), bold_look(Color::White))]),
        blank_view(),
        pieces(
            seq![
                ("  Enter "@, bold_look(Color::Green)),
                ("确认  "@, plain_look()),
                ("Esc "@, bold_look(Color::Yellow)),
                ("取消"@, plain_look()),
            ],
        ),
    ]
}

/// The label of an inline input (see `input_label`).
pub fn input_label_text(m: InputMode) -> (r: &'static str)
    ensures
        r@ == input_label(m),
{
    proof {
        reveal_strlit("");
    }
    match m {
        InputMode::Normal => "",
        InputMode::AddingItem => "添加条目",
        InputMode::EditingItemName => "编辑名称",
        InputMode::EditingItemDesc => "编辑描述",
        InputMode::AddingNote => "添加笔记",
        InputMode::AddingResourceName => "资源名称",
        InputMode::AddingResourceUrl => "资源 URL",
    }
}

/// The lines of the inline input (see `input_lines`).
pub fn input_view_lines(m: InputMode, buffer: &str) -> (r: Vec<Line>)
    ensures
        lines_view(r@) == input_lines(m, buffer@),
{
    let mut out: Vec<Line> = Vec::new();
    assert(lines_view(out@) =~= Seq::<LineView>::empty());
    let mut label = concat("  ", input_label_text(m));
    append_str(&mut label, ": ");
    let mut typed = String::from_str(buffer);
    push_char(&mut typed, '│');
    let v = vec![
        Span { content: label, style: fg(Color::Cyan) },
        Span { content: typed, style: Style { fg: Some(Color::White), bg: None, bold: true, crossed_out: false, italic: false } },
    ];
    assert(spans_view(v@) =~= input_lines(m, buffer@)[0].spans);
    push_line(&mut out, line_of(v));
    push_line(&mut out, blank_line());
    let k = vec![
        Span { content: String::from_str("  Enter "), style: Style { fg: Some(Color::Green), bg: None, bold: true, crossed_out: false, italic: false } },
        Span { content: String::from_str("确认  "), style: plain() },
        Span { content: String::from_str("Esc "), style: Style { fg: Some(Color::Yellow), bg: None, bold: true, crossed_out: false, italic: false } },
        Span { content: String::from_str("取消"), style: plain() },
    ];
    assert(spans_view(k@) =~= input_lines(m, buffer@)[2].spans);
    push_line(&mut out, line_of(k));
    assert(lines_view(out@) =~= input_lines(m, buffer@));
    out
}

} // verus!
