//! The fixed text of a frame, as data: one panel per region.
use vstd::prelude::*;

verus! {

/// The look of a run of text.
#[derive(Clone, Copy, Debug, PartialEq, Eq, Structural)]
pub enum Tone {
    /// The terminal's default style.
    Plain,
    /// Cyan and bold.
    Title,
    /// Yellow.
    Label,
    /// Dark gray.
    Muted,
}

/// How a panel's lines sit within it.
#[derive(Clone, Copy, Debug, PartialEq, Eq, Structural)]
pub enum Align {
    Left,
    Center,
}

/// A run of text in one tone.
#[derive(Clone, Debug)]
pub struct TextSpan {
    pub text: String,
    pub tone: Tone,
}

/// One line of a panel; a blank line has no spans.
#[derive(Clone, Debug)]
pub struct TextLine {
    pub spans: Vec<TextSpan>,
}

/// A bordered panel with a title and lines of text.
#[derive(Clone, Debug)]
pub struct Panel {
    pub title: String,
    pub lines: Vec<TextLine>,
    pub align: Align,
    /// Whether lines wrap at the panel's width, trimming leading whitespace.
    pub wrap: bool,
    /// The tone of the panel as a whole.
    pub tone: Tone,
}

/// The text of every panel of a frame.
#[derive(Clone, Debug)]
pub struct FrameContent {
    pub header: Panel,
    pub body: Panel,
    pub footer: Panel,
}

impl TextLine {
    pub open spec fn view(self) -> Seq<(Seq<char>, Tone)> {
        self.spans@.map_values(|s: TextSpan| (s.text@, s.tone))
    }
}

impl Panel {
    pub open spec fn lines_view(self) -> Seq<Seq<(Seq<char>, Tone)>> {
        self.lines@.map_values(|l: TextLine| l.view())
    }
}

/// The lines of the header: a styled title and a subtitle.
pub open spec fn header_text() -> Seq<Seq<(Seq<char>, Tone)>> {
    seq![seq![("RUC Auth"@, Tone::Title)], seq![("终端应用示例"@, Tone::Plain)]]
}

/// The lines of the body: a welcome, a blank line, a label and two shortcuts.
pub open spec fn body_text() -> Seq<Seq<(Seq<char>, Tone)>> {
    seq![
        seq![("欢迎使用 TUI 模式！"@, Tone::Plain)],
        Seq::<(Seq<char>, Tone)>::empty(),
        seq![("快捷键:"@, Tone::Label)],
        seq![("  • 按 'q' 或 'Esc' 退出"@, Tone::Plain)],
        seq![("  • 按 'h' 显示帮助"@, Tone::Plain)],
    ]
}

/// The line of the footer: the hint.
pub open spec fn footer_text() -> Seq<Seq<(Seq<char>, Tone)>> {
    seq![seq![("按 'q' 退出 | 按 'h' 帮助"@, Tone::Plain)]]
}

fn span(text: &str, tone: Tone) -> (r: TextSpan)
    ensures
        r.text@ == text@,
        r.tone == tone,
{
    TextSpan { text: String::from_str(text), tone }
}

fn single_line(text: &str, tone: Tone) -> (r: TextLine)
    ensures
        r.view() == seq![(text@, tone)],
{
    let mut spans: Vec<TextSpan> = Vec::new();
    spans.push(span(text, tone));
    assert(spans@.map_values(|s: TextSpan| (s.text@, s.tone)) =~= seq![(text@, tone)]);
    TextLine { spans }
}

fn blank_line() -> (r: TextLine)
    ensures
        r.view() == Seq::<(Seq<char>, Tone)>::empty(),
{
    let spans: Vec<TextSpan> = Vec::new();
    assert(spans@.map_values(|s: TextSpan| (s.text@, s.tone)) =~= Seq::<(Seq<char>, Tone)>::empty());
    TextLine { spans }
}

/// The header: a centred title and subtitle.
pub fn header_panel() -> (r: Panel)
    ensures
        r.title@ == "应用标题"@,
        r.align == Align::Center,
        r.wrap,
        r.tone == Tone::Plain,
        r.lines_view() == header_text(),
{
    let mut lines: Vec<TextLine> = Vec::new();
    lines.push(single_line("RUC Auth", Tone::Title));
    lines.push(single_line("终端应用示例", Tone::Plain));
    let r = Panel { title: String::from_str("应用标题"), lines, align: Align::Center, wrap: true, tone: Tone::Plain };
    assert(r.lines_view() =~= header_text());
    r
}

/// The body: a welcome, a blank line, and the shortcuts.
pub fn body_panel() -> (r: Panel)
    ensures
        r.title@ == "内容"@,
        r.align == Align::Left,
        r.wrap,
        r.tone == Tone::Plain,
        r.lines_view() == body_text(),
{
    let mut lines: Vec<TextLine> = Vec::new();
    lines.push(single_line("欢迎使用 TUI 模式！", Tone::Plain));
    lines.push(blank_line());
    lines.push(single_line("快捷键:", Tone::Label));
    lines.push(single_line("  • 按 'q' 或 'Esc' 退出", Tone::Plain));
    lines.push(single_line("  • 按 'h' 显示帮助", Tone::Plain));
    let r = Panel { title: String::from_str("内容"), lines, align: Align::Left, wrap: true, tone: Tone::Plain };
    assert(r.lines_view() =~= body_text());
    r
}

/// The footer: a centred, muted one-line hint.
pub fn footer_panel() -> (r: Panel)
    ensures
        r.title@ == "帮助"@,
        r.align == Align::Center,
        !r.wrap,
        r.tone == Tone::Muted,
        r.lines_view() == footer_text(),
{
    let mut lines: Vec<TextLine> = Vec::new();
    lines.push(single_line("按 'q' 退出 | 按 'h' 帮助", Tone::Plain));
    let r = Panel { title: String::from_str("帮助"), lines, align: Align::Center, wrap: false, tone: Tone::Muted };
    assert(r.lines_view() =~= footer_text());
    r
}

/// The text of a frame. It does not depend on the session's state: the same
/// three panels are painted while quitting too.
pub fn frame_content() -> (r: FrameContent)
    ensures
        r.header.title@ == "应用标题"@,
        r.body.title@ == "内容"@,
        r.footer.title@ == "帮助"@,
        r.header.lines_view() == header_text(),
        r.body.lines_view() == body_text(),
        r.footer.lines_view() == footer_text(),
        r.header.align == Align::Center && r.header.wrap && r.header.tone == Tone::Plain,
        r.body.align == Align::Left && r.body.wrap && r.body.tone == Tone::Plain,
        r.footer.align == Align::Center && !r.footer.wrap && r.footer.tone == Tone::Muted,
{
    FrameContent { header: header_panel(), body: body_panel(), footer: footer_panel() }
}

} // verus!
