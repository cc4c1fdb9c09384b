//! The stage explorer: the graph's captions, the timeline, and the frame.

use leviath_dashboard::render::graph_view::{
    draw_explorer_graph, draw_stage_explorer, graph_title, ExplorerTab, FlowDirection,
    GraphSelection,
};
use leviath_dashboard::state::Dashboard;
use leviath_dashboard::style::Rect;
use leviath_dashboard::types::{PaneId, StageEdge, StageGraph, StageNode, StageVisit};

fn node(id: &str) -> StageNode {
    StageNode {
        id: id.to_string(),
        kind_label: "autonomous".to_string(),
        max_iterations: None,
        max_revisits: None,
        self_loop: false,
        inputs: vec![],
        outputs: vec![],
        description: None,
    }
}

fn edge(from: &str, to: &str) -> StageEdge {
    StageEdge {
        from: from.to_string(),
        to: to.to_string(),
        condition_label: String::new(),
        hint: None,
        transform: "direct".to_string(),
        unseen: vec![],
    }
}

fn stage_graph() -> StageGraph {
    StageGraph {
        is_branching: true,
        nodes: vec![
            StageNode {
                max_iterations: Some(5),
                description: Some("decide what to build".to_string()),
                ..node("plan")
            },
            StageNode { inputs: vec!["text/*".to_string()], ..node("implement") },
            StageNode { max_revisits: Some(2), self_loop: true, ..node("review") },
            StageNode { outputs: vec!["application/json".to_string()], ..node("recover") },
            StageNode {
                kind_label: "output".to_string(),
                inputs: vec!["application/pdf".to_string()],
                ..node("island")
            },
        ],
        edges: vec![
            StageEdge { hint: Some("ready".to_string()), ..edge("plan", "implement") },
            edge("implement", "review"),
            StageEdge { condition_label: "error".to_string(), ..edge("implement", "recover") },
            StageEdge { condition_label: "llm_choice".to_string(), ..edge("review", "implement") },
            edge("review", "island"),
            StageEdge {
                unseen: vec!["application/json".to_string()],
                ..edge("recover", "implement")
            },
        ],
    }
}

/// The line under the canvas.
fn footer(selection: GraphSelection) -> String {
    draw_explorer_graph(
        Rect::new(0, 0, 200, 48),
        &stage_graph(),
        &selection,
        FlowDirection::LeftToRight,
        false,
        false,
        "100",
    )
    .line
    .text()
}

fn on(stage: &str) -> String {
    footer(GraphSelection::Node(stage.to_string()))
}

fn on_edge(index: usize) -> String {
    footer(GraphSelection::Edge(stage_graph().edges[index].clone()))
}

#[test]
fn selecting_a_stage_or_an_edge_describes_it_under_the_canvas() {
    let text = on("plan");
    assert!(text.contains("plan autonomous · max 5 iterations · decide what to build"), "{text}");
    assert!(text.contains("→ implement"), "{text}");
    // A stage with a revisit budget and a self-loop says so; a terminal
    // one lists no targets.
    let text = on("review");
    assert!(text.contains("review autonomous · max 2 revisits · may repeat itself"), "{text}");
    assert!(text.contains("→ implement [llm_choice]  → island"), "{text}");
    let text = on("island");
    assert!(text.contains("island output · takes application/pdf"), "{text}");
    assert!(!text.contains("application/pdf  →"), "{text}");
    // A stage that hands a file back says so, and the path it leaves by
    // says when the next stage cannot take the file.
    let text = on("recover");
    assert!(
        text.contains("recover autonomous · hands back application/json  → implement"),
        "{text}"
    );
    let text = on_edge(5);
    assert!(
        text.contains(
            "recover → implement · transform direct · ! application/json not taken by implement: crosses as a stand-in"
        ),
        "{text}"
    );
    let text = graph_title(200, FlowDirection::LeftToRight, false, true, "100");
    assert!(text.contains("escapes on (e)"), "{text}");
    // A narrow pane gets the short title.
    let text = graph_title(80, FlowDirection::TopToBottom, false, true, "100");
    assert!(text.contains("Graph · ↓ · path (t) · e:on · 100%"), "{text}");
    assert_eq!(
        graph_title(60, FlowDirection::LeftToRight, true, false, "100"),
        " Graph · → · all (t) · e:off · 100% "
    );
    // The first edge carries a hint and no condition; the loop back from review
    // carries the reverse.
    let text = on_edge(0);
    assert!(text.contains("plan → implement · transform direct · ready"), "{text}");
    let text = on_edge(3);
    assert!(text.contains("review → implement [llm_choice] · transform direct"), "{text}");
    assert!(!text.contains("transform direct · "), "no hint: {text}");
}

#[test]
fn with_nothing_selected_the_footer_says_how_to_select() {
    let text = footer(GraphSelection::Nothing);
    assert!(text.contains("Select a stage with the arrows"), "{text}");
    let gone = on("never-was");
    assert!(!gone.contains("autonomous"), "{gone}");
}

#[test]
fn the_wide_title_spells_out_what_the_canvas_draws() {
    let text = graph_title(200, FlowDirection::LeftToRight, false, false, "100");
    assert!(text.contains("escapes off (e)"), "{text}");
    assert!(text.contains("path + options (t)"), "{text}");
    let text = graph_title(200, FlowDirection::LeftToRight, true, false, "100");
    assert!(text.contains("whole graph (t)"), "{text}");
}

/// Up to three rows are the canvas's alone, and the body's in the explorer.
#[test]
fn a_short_explorer_keeps_its_body() {
    for height in 0..=3 {
        let area = Rect::new(2, 9, 80, height);
        let tab = draw_explorer_graph(
            area,
            &stage_graph(),
            &GraphSelection::Nothing,
            FlowDirection::LeftToRight,
            false,
            false,
            "100",
        );
        assert_eq!(tab.canvas, area);
        assert_eq!(tab.footer, Rect::new(2, 9 + height, 80, 0));
        let frame = draw_stage_explorer(area, "grapher", ExplorerTab::Graph);
        assert_eq!(frame.body, area);
        assert_eq!(frame.strip, Rect::new(2, 9, 80, 0));
        assert_eq!(frame.hints_row, Rect::new(2, 9 + height, 80, 0));
    }
    let frame = draw_stage_explorer(Rect::new(2, 9, 80, 5), "grapher", ExplorerTab::Graph);
    assert_eq!(frame.strip, Rect::new(2, 9, 80, 1));
    assert_eq!(frame.body, Rect::new(2, 10, 80, 3));
    assert_eq!(frame.hints_row, Rect::new(2, 13, 80, 1));
}

#[test]
fn the_frame_holds_a_strip_a_body_and_the_hints() {
    let frame = draw_stage_explorer(Rect::new(0, 0, 200, 50), "grapher", ExplorerTab::Graph);
    assert!(frame.tabs.text().contains("Stage explorer"), "{:?}", frame.tabs.text());
    assert!(frame.tabs.text().contains("grapher"));
    assert!(frame.hints.iter().any(|(key, what)| *key == "←→↑↓" && what.contains("select")));
    assert_eq!(frame.strip.width, 200);
    assert_eq!(frame.body.width, 200);
    let frame = draw_stage_explorer(Rect::new(0, 0, 200, 50), "grapher", ExplorerTab::Timeline);
    assert!(frame.hints.iter().any(|(_, what)| what.contains("open its context")));
}

#[test]
fn the_canvas_is_noted_for_the_mouse() {
    let mut dash = Dashboard::new();
    dash.note_explorer_canvas(Rect::new(1, 2, 30, 40));
    assert!(dash.mouse.pane_rects.contains(&(PaneId::ExplorerGraph, Rect::new(1, 2, 30, 40))));
}

fn visit(stage: &str, entered_at: i64, left_at: Option<i64>, first_point: usize) -> StageVisit {
    StageVisit { stage: stage.to_string(), entered_at, left_at, iterations: 2, first_point }
}

#[test]
fn the_timeline_lists_visits_and_marks_the_browsed_point() {
    let mut dash = Dashboard::new();
    dash.detail.history_idx = Some(1);
    let visits = vec![visit("plan", 10, Some(70), 0), visit("implement", 70, None, 1)];
    let entered = vec!["00:00:10".to_string(), "00:01:10".to_string()];
    let timeline = dash.draw_explorer_timeline(Rect::new(0, 0, 200, 48), &visits, &entered, 1);
    assert!(timeline.title.contains("Timeline · 2 visits"), "{}", timeline.title);
    let text: Vec<String> = timeline.lines.iter().map(|l| l.text()).collect();
    assert!(text[1].contains("iter 2"), "{text:?}");
    assert!(text[1].contains("⏪"), "browsed point marked: {text:?}");
    assert!(!text[0].contains("⏪"), "{text:?}");
    assert!(text[1].contains("…"), "open-ended visit duration: {text:?}");
    assert!(text[0].contains("1m0s"), "{text:?}");
    assert!(text[0].contains("00:00:10"), "{text:?}");
    let frame = draw_stage_explorer(Rect::new(0, 0, 200, 50), "grapher", ExplorerTab::Timeline);
    assert!(frame.hints.iter().any(|(_, what)| what.contains("open its context")), "hint bar");
}

#[test]
fn the_timeline_scrolls_to_the_selected_visit() {
    let dash = Dashboard::new();
    let visits: Vec<StageVisit> = (0..20).map(|i| visit("s", i, Some(i + 1), 0)).collect();
    let entered: Vec<String> = (0..20).map(|_| String::new()).collect();
    let area = Rect::new(0, 0, 40, 7);
    assert_eq!(dash.draw_explorer_timeline(area, &visits, &entered, 4).scroll, 0);
    assert_eq!(dash.draw_explorer_timeline(area, &visits, &entered, 19).scroll, 15);
}
