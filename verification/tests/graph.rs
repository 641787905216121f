use mqanim::color::Color;
use mqanim::draw::DrawCommand;
use mqanim::geometry::Vec2;
use mqanim::geometry::WorldPoint;
use mqanim::plot::AxisStyle;
use mqanim::plot::Graph;
use mqanim::plot::GraphEndPointStyle;
use mqanim::plot::GraphStyle;
use mqanim::plot::LabelStyle;
use mqanim::plot::MarkerStyle;
use mqanim::plot::TickStyle;

const WHITE: Color = Color { r: 255, g: 255, b: 255, a: 255 };
const RED: Color = Color { r: 230, g: 41, b: 55, a: 255 };
const GREEN: Color = Color { r: 0, g: 228, b: 48, a: 255 };

fn at(x: i64, y: i64) -> WorldPoint {
    WorldPoint { x, y }
}

fn line(from: WorldPoint, to: WorldPoint, thickness: i32, color: Color) -> DrawCommand {
    DrawCommand::Line { from, to, thickness, color }
}

fn square() -> Graph {
    Graph::new(Vec2 { x: 0, y: 0 }, Vec2 { x: 200, y: 100 }, -5..5, -5..5)
}

fn bare(x_step: i32, y_step: i32, x_ticks: TickStyle, y_ticks: TickStyle) -> GraphStyle {
    GraphStyle {
        x_style: AxisStyle {
            tick_step: x_step,
            tick_style: x_ticks,
            end_point_style: GraphEndPointStyle::Nothing,
            line_thickness: 3,
            line_color: RED,
        },
        y_style: AxisStyle {
            tick_step: y_step,
            tick_style: y_ticks,
            end_point_style: GraphEndPointStyle::Nothing,
            line_thickness: 4,
            line_color: GREEN,
        },
    }
}

#[test]
fn graph_keeps_its_placement() {
    let graph: Graph = Graph::new(Vec2 { x: 10, y: -20 }, Vec2 { x: 200, y: 100 }, -5..5, 0..1);
    assert_eq!(graph.world_center_pos(), Vec2 { x: 10, y: -20 });
    assert_eq!(graph.world_size(), Vec2 { x: 200, y: 100 });
}

#[test]
fn graph_to_world_maps_each_axis() {
    let graph: Graph = Graph::new(Vec2 { x: 10, y: -20 }, Vec2 { x: 200, y: 100 }, -5..5, 0..4);
    assert_eq!(graph.graph_to_world(Vec2 { x: -5, y: 0 }), at(-90, -70));
    assert_eq!(graph.graph_to_world(Vec2 { x: 5, y: 4 }), at(110, 30));
    assert_eq!(graph.graph_to_world(Vec2 { x: 0, y: 2 }), at(10, -20));
    assert_eq!(graph.graph_to_world(Vec2 { x: 1, y: 1 }), at(30, -45));
}

#[test]
fn graph_to_world_beyond_the_domain() {
    let graph: Graph = square();
    assert_eq!(graph.graph_to_world(Vec2 { x: 10, y: -15 }), at(200, -150));
}

#[test]
fn graph_to_world_rounds_down() {
    let graph: Graph = Graph::new(Vec2 { x: 0, y: 0 }, Vec2 { x: 10, y: 10 }, 0..3, 0..3);
    assert_eq!(graph.graph_to_world(Vec2 { x: 1, y: 2 }), at(-2, 1));
    assert_eq!(graph.graph_to_world(Vec2 { x: -1, y: 4 }), at(-9, 8));
}

#[test]
fn box_of_odd_size() {
    let graph: Graph = Graph::new(Vec2 { x: 0, y: 0 }, Vec2 { x: 201, y: 101 }, 0..1, 0..1);
    assert_eq!(graph.graph_to_world(Vec2 { x: 0, y: 0 }), at(-100, -50));
    assert_eq!(graph.graph_to_world(Vec2 { x: 1, y: 1 }), at(100, 50));
}

#[test]
fn origin_clamped_to_the_low_edge() {
    let graph: Graph = Graph::new(Vec2 { x: 0, y: 0 }, Vec2 { x: 200, y: 100 }, 1..5, 2..4);
    assert_eq!(graph.axes_pos(), at(-100, -50));
}

#[test]
fn origin_inside_the_domain() {
    let graph: Graph = square();
    assert_eq!(graph.axes_pos().x, graph.graph_to_world(Vec2 { x: 0, y: 0 }).x);
    assert_eq!(graph.axes_pos(), at(0, 0));
    let uneven: Graph = Graph::new(Vec2 { x: 0, y: 0 }, Vec2 { x: 200, y: 100 }, -5..15, -1..3);
    assert_eq!(uneven.axes_pos(), at(-50, -25));
}

#[test]
fn origin_of_a_negative_domain() {
    let graph: Graph = Graph::new(Vec2 { x: 0, y: 0 }, Vec2 { x: 200, y: 100 }, -5..-1, -9..-2);
    assert_eq!(graph.axes_pos(), at(-100, -50));
}

#[test]
fn origin_at_an_end_of_the_domain() {
    let graph: Graph = Graph::new(Vec2 { x: 0, y: 0 }, Vec2 { x: 200, y: 100 }, -5..0, 0..5);
    assert_eq!(graph.axes_pos(), at(100, -50));
}

#[test]
fn style_replaces_the_style() {
    let style: GraphStyle = bare(1, 1, TickStyle::Nothing, TickStyle::Nothing);
    let graph: Graph = square().style(style);
    assert_eq!(graph.world_size(), Vec2 { x: 200, y: 100 });
    assert_eq!(
        graph.draw_axes(),
        vec![line(at(-100, 0), at(100, 0), 3, RED), line(at(0, -50), at(0, 50), 4, GREEN)]
    );
}

#[test]
fn point_in_the_box_is_drawn() {
    let graph: Graph = square();
    assert_eq!(
        graph.plot_pt_xy(1, -2, 10, RED),
        Some(DrawCommand::Circle { center: at(20, -20), radius: 10, color: RED })
    );
    assert_eq!(
        graph.plot_pt_vec(&Vec2 { x: 1, y: -2 }, 10, RED),
        Some(DrawCommand::Circle { center: at(20, -20), radius: 10, color: RED })
    );
}

#[test]
fn point_on_the_edge_is_drawn() {
    let graph: Graph = square();
    assert!(graph.plot_pt_xy(5, 5, 1, RED).is_some());
    assert!(graph.plot_pt_xy(-5, -5, 1, RED).is_some());
}

#[test]
fn point_outside_the_box_is_left_out() {
    let graph: Graph = square();
    assert_eq!(graph.plot_pt_xy(6, 0, 10, RED), None);
    assert_eq!(graph.plot_pt_xy(0, -6, 10, RED), None);
    assert_eq!(graph.plot_pt_vec(&Vec2 { x: -6, y: 6 }, 10, RED), None);
}

#[test]
fn world_box_test() {
    let graph: Graph = square();
    assert!(graph.world_pt_in_world_bb(&at(-100, 50)));
    assert!(graph.world_pt_in_world_bb(&at(0, 0)));
    assert!(!graph.world_pt_in_world_bb(&at(-101, 0)));
    assert!(!graph.world_pt_in_world_bb(&at(0, 51)));
}

#[test]
fn segment_outside_the_box_is_left_out() {
    let graph: Graph = square();
    assert_eq!(graph.plot_line_world(&at(-300, 0), &at(300, 0), 2, RED), None);
    assert_eq!(graph.plot_line_vec(&[Vec2 { x: -9, y: 0 }, Vec2 { x: 9, y: 0 }], 2, RED), vec![]);
}

#[test]
fn segment_with_one_end_in_the_box_is_drawn_whole() {
    let graph: Graph = square();
    assert_eq!(
        graph.plot_line_world(&at(0, 0), &at(300, 400), 2, RED),
        Some(line(at(0, 0), at(300, 400), 2, RED))
    );
    assert_eq!(
        graph.plot_line_world(&at(300, 400), &at(0, 0), 2, RED),
        Some(line(at(300, 400), at(0, 0), 2, RED))
    );
    assert_eq!(
        graph.plot_line_vec(&[Vec2 { x: 0, y: 0 }, Vec2 { x: 15, y: 40 }], 2, RED),
        vec![line(at(0, 0), at(300, 400), 2, RED)]
    );
}

#[test]
fn line_through_points() {
    let graph: Graph = square();
    let pts: Vec<Vec2> = vec![
        Vec2 { x: -9, y: 0 },
        Vec2 { x: -7, y: 0 },
        Vec2 { x: -5, y: 0 },
        Vec2 { x: 0, y: 5 },
        Vec2 { x: 0, y: 6 },
        Vec2 { x: 0, y: 7 },
    ];
    assert_eq!(
        graph.plot_line_vec(&pts, 3, GREEN),
        vec![
            line(at(-140, 0), at(-100, 0), 3, GREEN),
            line(at(-100, 0), at(0, 50), 3, GREEN),
            line(at(0, 50), at(0, 60), 3, GREEN),
        ]
    );
}

#[test]
fn line_through_too_few_points() {
    let graph: Graph = square();
    assert_eq!(graph.plot_line_vec(&[], 3, GREEN), vec![]);
    assert_eq!(graph.plot_line_vec(&[Vec2 { x: 0, y: 0 }], 3, GREEN), vec![]);
    assert_eq!(graph.plot_line_xy(&[], &[1, 2], 3, GREEN), vec![]);
    assert_eq!(graph.plot_line_xy(&[1, 2], &[1], 3, GREEN), vec![]);
}

#[test]
fn line_through_coordinates() {
    let graph: Graph = square();
    assert_eq!(
        graph.plot_line_xy(&[-5, 0, 5, 9], &[-5, 0, 5], 1, RED),
        vec![line(at(-100, -50), at(0, 0), 1, RED), line(at(0, 0), at(100, 50), 1, RED)]
    );
    assert_eq!(
        graph.plot_line_xy(&[-5, 0, 5], &[-5, 0, 5], 1, RED),
        graph.plot_line_vec(
            &[Vec2 { x: -5, y: -5 }, Vec2 { x: 0, y: 0 }, Vec2 { x: 5, y: 5 }],
            1,
            RED
        )
    );
}

#[test]
fn plain_axes() {
    let graph: Graph = square();
    assert_eq!(
        graph.draw_axes(),
        vec![
            line(at(-100, 0), at(100, 0), 3, WHITE),
            line(at(0, -50), at(0, 50), 3, WHITE),
            DrawCommand::Triangle { v1: at(-107, 0), v2: at(-100, 7), v3: at(-100, -7), color: WHITE },
            DrawCommand::Triangle { v1: at(107, 0), v2: at(100, 7), v3: at(100, -7), color: WHITE },
            DrawCommand::Triangle { v1: at(0, -57), v2: at(7, -50), v3: at(-7, -50), color: WHITE },
            DrawCommand::Triangle { v1: at(0, 57), v2: at(7, 50), v3: at(-7, 50), color: WHITE },
        ]
    );
}

#[test]
fn no_arrow_where_the_origin_is() {
    let graph: Graph =
        Graph::new(Vec2 { x: 0, y: 0 }, Vec2 { x: 200, y: 100 }, 0..5, -5..0).style(GraphStyle {
            x_style: AxisStyle {
                tick_step: 1,
                tick_style: TickStyle::Nothing,
                end_point_style: GraphEndPointStyle::Arrow { thickness: 4 },
                line_thickness: 1,
                line_color: RED,
            },
            y_style: AxisStyle {
                tick_step: 1,
                tick_style: TickStyle::Nothing,
                end_point_style: GraphEndPointStyle::Arrow { thickness: 6 },
                line_thickness: 2,
                line_color: GREEN,
            },
        });
    assert_eq!(
        graph.draw_axes(),
        vec![
            line(at(-100, 50), at(100, 50), 1, RED),
            line(at(-100, -50), at(-100, 50), 2, GREEN),
            DrawCommand::Triangle { v1: at(104, 50), v2: at(100, 54), v3: at(100, 46), color: RED },
            DrawCommand::Triangle {
                v1: at(-100, -56),
                v2: at(-94, -50),
                v3: at(-106, -50),
                color: GREEN,
            },
        ]
    );
}

#[test]
fn arrows_sit_on_the_axis_where_the_origin_is_clamped() {
    let graph: Graph =
        Graph::new(Vec2 { x: 0, y: 0 }, Vec2 { x: 200, y: 100 }, 1..5, -5..5).style(GraphStyle {
            x_style: AxisStyle {
                tick_step: 1,
                tick_style: TickStyle::Nothing,
                end_point_style: GraphEndPointStyle::Nothing,
                line_thickness: 1,
                line_color: RED,
            },
            y_style: AxisStyle {
                tick_step: 1,
                tick_style: TickStyle::Nothing,
                end_point_style: GraphEndPointStyle::Arrow { thickness: 5 },
                line_thickness: 2,
                line_color: GREEN,
            },
        });
    assert_eq!(graph.graph_to_world(Vec2 { x: 0, y: 0 }), at(-150, 0));
    assert_eq!(
        graph.draw_axes(),
        vec![
            line(at(-100, 0), at(100, 0), 1, RED),
            line(at(-100, -50), at(-100, 50), 2, GREEN),
            DrawCommand::Triangle {
                v1: at(-100, -55),
                v2: at(-95, -50),
                v3: at(-105, -50),
                color: GREEN,
            },
            DrawCommand::Triangle { v1: at(-100, 55), v2: at(-95, 50), v3: at(-105, 50), color: GREEN },
        ]
    );
}

#[test]
fn axes_with_ticks() {
    let marker: MarkerStyle = MarkerStyle { length: 6, thickness: 2, color: RED };
    let label: LabelStyle =
        LabelStyle {
            pos_offset: Vec2 { x: 1, y: 2 },
            color: GREEN,
            font_size: 12,
            decimal_places: 1,
            unit: 10,
        };
    let graph: Graph = Graph::new(Vec2 { x: 0, y: 0 }, Vec2 { x: 200, y: 100 }, 0..10, -10..10)
        .style(bare(
            5,
            10,
            TickStyle::Marker { style: marker },
            TickStyle::Label { style: label },
        ));
    let tick = |x: i64| line(at(x, 3), at(x, -3), 2, RED);
    let number = |value: i32, y: i64| DrawCommand::Label {
        value,
        pos: at(-100 + 1 - 20, y + 2),
        font_size: 12,
        decimal_places: 1,
        unit: 10,
        color: GREEN,
    };
    assert_eq!(
        graph.draw_axes(),
        vec![
            line(at(-100, 0), at(100, 0), 3, RED),
            line(at(-100, -50), at(-100, 50), 4, GREEN),
            tick(-100),
            tick(0),
            tick(100),
            number(0, 0),
            number(10, 50),
            number(-10, -50),
        ]
    );
}

#[test]
fn ticks_on_one_axis_only() {
    let marker: MarkerStyle = MarkerStyle { length: 4, thickness: 1, color: RED };
    let graph: Graph = Graph::new(Vec2 { x: 0, y: 0 }, Vec2 { x: 200, y: 100 }, -5..5, -5..5)
        .style(bare(5, 5, TickStyle::Nothing, TickStyle::Marker { style: marker }));
    assert_eq!(
        graph.draw_axes(),
        vec![
            line(at(-100, 0), at(100, 0), 3, RED),
            line(at(0, -50), at(0, 50), 4, GREEN),
            line(at(2, 0), at(-2, 0), 1, RED),
            line(at(2, 50), at(-2, 50), 1, RED),
            line(at(2, -50), at(-2, -50), 1, RED),
        ]
    );
}

#[test]
fn no_ticks_for_a_step_that_is_not_positive() {
    let marker: MarkerStyle = MarkerStyle { length: 4, thickness: 1, color: RED };
    let graph: Graph = square().style(bare(
        0,
        -3,
        TickStyle::Marker { style: marker },
        TickStyle::Marker { style: marker },
    ));
    assert_eq!(graph.draw_axes().len(), 2);
}

#[test]
fn graph_with_a_domain_that_does_not_rise_is_refused() {
    let center: Vec2 = Vec2 { x: 0, y: 0 };
    let size: Vec2 = Vec2 { x: 200, y: 100 };
    assert!(Graph::try_new(center, size, 5..5, -5..5).is_none());
    assert!(Graph::try_new(center, size, 5..1, -5..5).is_none());
    assert!(Graph::try_new(center, size, -5..5, 0..0).is_none());
    assert!(Graph::try_new(center, size, -5..5, 3..-3).is_none());
}

#[test]
fn graph_beyond_the_coordinates_is_refused() {
    assert!(Graph::try_new(Vec2 { x: i32::MAX, y: 0 }, Vec2 { x: 2, y: 2 }, 0..1, 0..1).is_none());
    assert!(Graph::try_new(Vec2 { x: 0, y: i32::MIN }, Vec2 { x: 2, y: 2 }, 0..1, 0..1).is_none());
    assert!(Graph::try_new(Vec2 { x: 0, y: i32::MIN }, Vec2 { x: 2, y: -2 }, 0..1, 0..1).is_none());
    assert!(Graph::try_new(Vec2 { x: i32::MAX, y: i32::MIN }, Vec2 { x: 1, y: 1 }, 0..1, 0..1).is_some());
    assert!(Graph::try_new(Vec2 { x: 0, y: 0 }, Vec2 { x: i32::MAX, y: i32::MIN }, 0..1, 0..1).is_some());
}

#[test]
fn graph_that_can_be_built_is_built() {
    let built: Option<Graph> =
        Graph::try_new(Vec2 { x: 10, y: -20 }, Vec2 { x: 200, y: 100 }, -5..5, 0..4);
    match built {
        Some(graph) => {
            assert_eq!(graph.world_center_pos(), Vec2 { x: 10, y: -20 });
            assert_eq!(graph.graph_to_world(Vec2 { x: 5, y: 4 }), at(110, 30));
        }
        None => panic!("the graph lies within the coordinates"),
    }
}

#[test]
fn graph_of_negative_size_has_an_empty_box() {
    let graph: Graph = Graph::new(Vec2 { x: 0, y: 0 }, Vec2 { x: -200, y: 100 }, -5..5, -5..5);
    assert_eq!(graph.graph_to_world(Vec2 { x: -5, y: -5 }), at(100, -50));
    assert_eq!(graph.plot_pt_xy(0, 0, 1, RED), None);
    assert_eq!(graph.plot_line_xy(&[-5, 0, 5], &[0, 0, 0], 1, RED), vec![]);
}

#[test]
fn each_axis_line_takes_the_style_of_its_axis() {
    let graph: Graph = square().style(bare(1, 1, TickStyle::Nothing, TickStyle::Nothing));
    let drawn: Vec<DrawCommand> = graph.draw_axes();
    assert_eq!(drawn[0], line(at(-100, 0), at(100, 0), 3, RED));
    assert_eq!(drawn[1], line(at(0, -50), at(0, 50), 4, GREEN));
}

#[test]
fn arrows_at_every_end_that_the_data_origin_is_not_at() {
    let graph: Graph =
        Graph::new(Vec2 { x: 0, y: 0 }, Vec2 { x: 200, y: 100 }, 1..5, 2..4).style(GraphStyle {
            x_style: AxisStyle {
                tick_step: 1,
                tick_style: TickStyle::Nothing,
                end_point_style: GraphEndPointStyle::Arrow { thickness: 4 },
                line_thickness: 1,
                line_color: RED,
            },
            y_style: AxisStyle {
                tick_step: 1,
                tick_style: TickStyle::Nothing,
                end_point_style: GraphEndPointStyle::Arrow { thickness: 6 },
                line_thickness: 2,
                line_color: GREEN,
            },
        });
    assert_eq!(graph.axes_pos(), at(-100, -50));
    assert_eq!(graph.graph_to_world(Vec2 { x: 0, y: 0 }), at(-150, -150));
    assert_eq!(
        graph.draw_axes(),
        vec![
            line(at(-100, -50), at(100, -50), 1, RED),
            line(at(-100, -50), at(-100, 50), 2, GREEN),
            DrawCommand::Triangle {
                v1: at(-104, -50),
                v2: at(-100, -46),
                v3: at(-100, -54),
                color: RED,
            },
            DrawCommand::Triangle { v1: at(104, -50), v2: at(100, -46), v3: at(100, -54), color: RED },
            DrawCommand::Triangle {
                v1: at(-100, -56),
                v2: at(-94, -50),
                v3: at(-106, -50),
                color: GREEN,
            },
            DrawCommand::Triangle { v1: at(-100, 56), v2: at(-94, 50), v3: at(-106, 50), color: GREEN },
        ]
    );
}

#[test]
fn ticks_sit_at_the_image_of_their_data_point() {
    let marker: MarkerStyle = MarkerStyle { length: 5, thickness: 1, color: RED };
    let graph: Graph = Graph::new(Vec2 { x: 0, y: 0 }, Vec2 { x: 200, y: 100 }, 1..5, 2..4)
        .style(bare(2, 1, TickStyle::Marker { style: marker }, TickStyle::Marker { style: marker }));
    assert_eq!(
        graph.draw_axes(),
        vec![
            line(at(-100, -50), at(100, -50), 3, RED),
            line(at(-100, -50), at(-100, 50), 4, GREEN),
            line(at(-100, -147), at(-100, -152), 1, RED),
            line(at(0, -147), at(0, -152), 1, RED),
            line(at(-147, -50), at(-152, -50), 1, RED),
            line(at(-147, 0), at(-152, 0), 1, RED),
        ]
    );
}

#[test]
fn six_ticks_on_a_domain_from_zero() {
    let marker: MarkerStyle = MarkerStyle { length: 5, thickness: 2, color: RED };
    let graph: Graph = Graph::new(Vec2 { x: 0, y: 0 }, Vec2 { x: 100, y: 100 }, 0..10, 0..10)
        .style(bare(2, 1, TickStyle::Marker { style: marker }, TickStyle::Nothing));
    let drawn: Vec<DrawCommand> = graph.draw_axes();
    assert_eq!(
        drawn,
        vec![
            line(at(-50, -50), at(50, -50), 3, RED),
            line(at(-50, -50), at(-50, 50), 4, GREEN),
            line(at(-50, -47), at(-50, -52), 2, RED),
            line(at(-30, -47), at(-30, -52), 2, RED),
            line(at(-10, -47), at(-10, -52), 2, RED),
            line(at(10, -47), at(10, -52), 2, RED),
            line(at(30, -47), at(30, -52), 2, RED),
            line(at(50, -47), at(50, -52), 2, RED),
        ]
    );
}

#[test]
fn four_arrowheads_where_the_data_origin_lies_beyond_the_box() {
    let graph: Graph = Graph::new(Vec2 { x: 0, y: 0 }, Vec2 { x: 100, y: 100 }, 1..5, 1..5);
    assert_eq!(graph.graph_to_world(Vec2 { x: 0, y: 0 }), at(-75, -75));
    assert_eq!(graph.axes_pos(), at(-50, -50));
    let drawn: Vec<DrawCommand> = graph.draw_axes();
    assert_eq!(drawn.len(), 6);
    assert_eq!(
        drawn[2],
        DrawCommand::Triangle {
            v1: at(-57, -50),
            v2: at(-50, -43),
            v3: at(-50, -57),
            color: Color { r: 255, g: 255, b: 255, a: 255 },
        }
    );
}
