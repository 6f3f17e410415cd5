use ruc_auth::content::{body_panel, footer_panel, frame_content, header_panel, Align, Panel, Tone};
use ruc_auth::layout::{frame_layout, panel_sizings, Area, Sizing};

fn area(x: u16, y: u16, width: u16, height: u16) -> Area {
    Area { x, y, width, height }
}

fn texts(p: &Panel) -> Vec<Vec<(String, Tone)>> {
    p.lines.iter().map(|l| l.spans.iter().map(|s| (s.text.clone(), s.tone)).collect()).collect()
}

#[test]
fn plan_is_fixed_flexible_fixed() {
    assert_eq!(panel_sizings(), vec![Sizing::Length(3), Sizing::Min(0), Sizing::Length(3)]);
}

#[test]
fn layout_of_a_standard_terminal() {
    let p = frame_layout(area(0, 0, 80, 24));
    assert_eq!(p.header, area(1, 1, 78, 3));
    assert_eq!(p.body, area(1, 4, 78, 16));
    assert_eq!(p.footer, area(1, 20, 78, 3));
}

#[test]
fn layout_middle_takes_the_rest() {
    for h in [8u16, 9, 20, 50] {
        let p = frame_layout(area(0, 0, 40, h));
        assert_eq!(p.header.height, 3);
        assert_eq!(p.footer.height, 3);
        assert_eq!(p.body.height, h - 2 - 6);
        assert_eq!(p.header.y, 1);
        assert_eq!(p.body.y, 4);
        assert_eq!(p.footer.y, 4 + (h - 8));
    }
}

#[test]
fn layout_of_a_short_surface_collapses_the_middle() {
    for h in [0u16, 1, 2, 3, 5, 6, 7] {
        let p = frame_layout(area(0, 0, 40, h));
        assert_eq!(p.body.height, 0);
        let inner = if h >= 2 { h - 2 } else { 0 };
        assert!(p.header.height + p.footer.height <= inner);
        assert!(p.header.height <= 3 && p.footer.height <= 3);
    }
}

#[test]
fn layout_with_offset_surface() {
    let p = frame_layout(area(5, 7, 20, 12));
    assert_eq!(p.header, area(6, 8, 18, 3));
    assert_eq!(p.body, area(6, 11, 18, 4));
    assert_eq!(p.footer, area(6, 15, 18, 3));
}

#[test]
fn header_text() {
    let p = header_panel();
    assert_eq!(p.title, "应用标题");
    assert_eq!(p.align, Align::Center);
    assert!(p.wrap);
    assert_eq!(
        texts(&p),
        vec![vec![("RUC Auth".to_string(), Tone::Title)], vec![("终端应用示例".to_string(), Tone::Plain)]]
    );
}

#[test]
fn body_text() {
    let p = body_panel();
    assert_eq!(p.title, "内容");
    assert_eq!(p.align, Align::Left);
    assert!(p.wrap);
    assert_eq!(
        texts(&p),
        vec![
            vec![("欢迎使用 TUI 模式！".to_string(), Tone::Plain)],
            vec![],
            vec![("快捷键:".to_string(), Tone::Label)],
            vec![("  • 按 'q' 或 'Esc' 退出".to_string(), Tone::Plain)],
            vec![("  • 按 'h' 显示帮助".to_string(), Tone::Plain)],
        ]
    );
}

#[test]
fn footer_text() {
    let p = footer_panel();
    assert_eq!(p.title, "帮助");
    assert_eq!(p.tone, Tone::Muted);
    assert!(!p.wrap);
    assert_eq!(texts(&p), vec![vec![("按 'q' 退出 | 按 'h' 帮助".to_string(), Tone::Plain)]]);
}

#[test]
fn frame_has_three_panels() {
    let c = frame_content();
    assert_eq!(c.header.title, "应用标题");
    assert_eq!(c.body.title, "内容");
    assert_eq!(c.footer.title, "帮助");
}

#[test]
fn layout_of_exactly_six_inner_rows() {
    let p = frame_layout(area(0, 0, 80, 8));
    assert_eq!(p.header, area(1, 1, 78, 3));
    assert_eq!(p.body, area(1, 4, 78, 0));
    assert_eq!(p.footer, area(1, 4, 78, 3));
}

#[test]
fn layout_is_the_same_on_every_call() {
    for h in [0u16, 4, 7, 8, 24] {
        assert_eq!(frame_layout(area(0, 0, 80, h)), frame_layout(area(0, 0, 80, h)));
    }
}
