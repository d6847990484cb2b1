use plot_rs::{
    ticks_between, ColorRGB, Command, Increment, Line, Point2D, Rect, Scalar, Xticks, Yticks,
};

fn viewport() -> Rect {
    Rect::from_edges(-200, 200, -150, 150)
}

fn step(value: i32) -> Increment {
    Increment::new(value).unwrap()
}

fn lines(commands: &[Command]) -> Vec<Line> {
    let mut found = Vec::new();
    for command in commands {
        match command {
            Command::Line(line) => found.push(*line),
            other => panic!("no line: {:?}", other),
        }
    }
    found
}

#[test]
fn increment_is_above_zero() {
    assert_eq!(Increment::new(0), None);
    assert_eq!(Increment::new(-1), None);
    assert_eq!(Increment::new(i32::MIN), None);
    assert_eq!(Increment::new(1).unwrap().get(), 1);
    assert_eq!(Increment::new(10).unwrap().get(), 10);
    assert_eq!(Increment::new(i32::MAX).unwrap().get(), i32::MAX);
}

#[test]
fn default_tick_styles() {
    let x = Xticks::default();
    assert_eq!(x.increment.get(), 10);
    assert_eq!(x.y_pos, 0);
    assert_eq!(x.ticksize, 5);
    assert_eq!(x.tickwidth, 1);
    assert_eq!(x.color, ColorRGB::black());
    let y = Yticks::default();
    assert_eq!(y.increment.get(), 10);
    assert_eq!(y.x_pos, 0);
    assert_eq!(y.ticksize, 5);
    assert_eq!(y.tickwidth, 1);
    assert_eq!(y.color, ColorRGB::black());
}

#[test]
fn x_tick_positions_of_the_default_style() {
    let positions = Xticks::default().positions(&viewport());
    let mut expected = Vec::new();
    for k in 0..20 {
        expected.push(10 * k);
    }
    for k in 0..20 {
        expected.push(-10 * k);
    }
    assert_eq!(positions, expected);
    assert_eq!(positions.len(), 40);
    assert_eq!(positions[0], 0);
    assert_eq!(positions[19], 190);
    assert_eq!(positions[20], 0);
    assert_eq!(positions[39], -190);
    let mut distinct = positions.clone();
    distinct.sort();
    distinct.dedup();
    assert_eq!(distinct.len(), 39);
}

#[test]
fn y_tick_positions_of_the_default_style() {
    let positions = Yticks::default().positions(&viewport());
    let mut expected = Vec::new();
    for k in 0..15 {
        expected.push(10 * k);
    }
    for k in 0..15 {
        expected.push(-10 * k);
    }
    assert_eq!(positions, expected);
}

#[test]
fn ticks_stop_before_the_edge() {
    assert_eq!(ticks_between(step(10), -30, 30), vec![0, 10, 20, 0, -10, -20]);
    assert_eq!(ticks_between(step(10), -31, 31), vec![0, 10, 20, 30, 0, -10, -20, -30]);
    assert_eq!(ticks_between(step(10), -29, 29), vec![0, 10, 20, 0, -10, -20]);
    assert_eq!(ticks_between(step(7), -8, 22), vec![0, 7, 14, 21, 0, -7]);
    assert_eq!(ticks_between(step(1), -2, 3), vec![0, 1, 2, 0, -1]);
}

#[test]
fn zero_is_a_tick_of_each_half_in_view() {
    assert_eq!(ticks_between(step(10), -1, 1), vec![0, 0]);
    assert_eq!(ticks_between(step(10), 0, 1), vec![0]);
    assert_eq!(ticks_between(step(10), -1, 0), vec![0]);
    assert_eq!(ticks_between(step(10), 5, 25), vec![0, 10, 20]);
    assert_eq!(ticks_between(step(10), -25, -5), vec![0, -10, -20]);
}

#[test]
fn no_ticks_without_extent() {
    assert_eq!(ticks_between(step(10), 0, 0), Vec::<i32>::new());
    assert_eq!(ticks_between(step(10), 3, -3), Vec::<i32>::new());
    assert_eq!(ticks_between(step(1), i32::MAX, i32::MIN), Vec::<i32>::new());
    let win = Rect::from_edges(0, 0, 0, 0);
    assert_eq!(Xticks::default().draw(&win), Vec::new());
    assert_eq!(Yticks::default().draw(&win), Vec::new());
}

#[test]
fn ticks_at_the_limits_of_the_coordinates() {
    let positions = ticks_between(step(i32::MAX), i32::MIN, i32::MAX);
    assert_eq!(positions, vec![0, 0, -i32::MAX]);
    let positions = ticks_between(step(1 << 30), i32::MIN, i32::MAX);
    assert_eq!(positions, vec![0, 1 << 30, 0, -(1 << 30)]);
    let positions = ticks_between(step(1000000000), i32::MIN, i32::MAX);
    assert_eq!(positions, vec![0, 1000000000, 2000000000, 0, -1000000000, -2000000000]);
}

#[test]
fn ticks_stay_inside_and_run_outwards() {
    for (increment, lo, hi) in [(3, -50, 71), (10, -200, 200), (1, -5, 9), (64, -1000, 10)] {
        let positions = ticks_between(step(increment), lo, hi);
        let split = positions.iter().skip(1).position(|p| *p == 0).map(|i| i + 1);
        let split = split.unwrap_or(positions.len());
        let (up, down) = positions.split_at(split);
        for p in up {
            assert!(0 <= *p && *p < hi);
        }
        for p in down {
            assert!(lo < *p && *p <= 0);
        }
        for pair in up.windows(2) {
            assert!(pair[0].abs() < pair[1].abs());
            assert_eq!(pair[1] - pair[0], increment);
        }
        for pair in down.windows(2) {
            assert!(pair[0].abs() < pair[1].abs());
            assert_eq!(pair[0] - pair[1], increment);
        }
        assert!(up.len() as i32 * increment >= hi);
        assert!(-(down.len() as i32 * increment) <= lo);
        assert_eq!(positions.iter().filter(|p| **p == 0).count(), 2);
    }
}

#[test]
fn x_ticks_of_the_default_style() {
    let commands = Xticks::default().draw(&viewport());
    let lines = lines(&commands);
    assert_eq!(lines.len(), 40);
    let positions = Xticks::default().positions(&viewport());
    for (line, x) in lines.iter().zip(positions) {
        // From 2.5 below the axis to 2.5 above it.
        assert_eq!(
            *line,
            Line {
                start: Point2D { x: Scalar::from_units(x), y: Scalar { halves: -5 } },
                end: Point2D { x: Scalar::from_units(x), y: Scalar { halves: 5 } },
                weight: Scalar::from_units(1),
                color: ColorRGB::black(),
            }
        );
    }
}

#[test]
fn y_ticks_of_the_default_style() {
    let commands = Yticks::default().draw(&viewport());
    let lines = lines(&commands);
    assert_eq!(lines.len(), 30);
    let positions = Yticks::default().positions(&viewport());
    for (line, y) in lines.iter().zip(positions) {
        assert_eq!(
            *line,
            Line {
                start: Point2D { x: Scalar { halves: -5 }, y: Scalar::from_units(y) },
                end: Point2D { x: Scalar { halves: 5 }, y: Scalar::from_units(y) },
                weight: Scalar::from_units(1),
                color: ColorRGB::black(),
            }
        );
    }
}

#[test]
fn ticks_of_a_style_of_its_own() {
    let teal = ColorRGB { red: 0, green: 128, blue: 128 };
    let ticks = Xticks { increment: step(25), y_pos: -40, ticksize: 8, tickwidth: 3, color: teal };
    let commands = ticks.draw(&Rect::from_edges(-60, 30, 0, 10));
    let expected: Vec<Command> = [0, 25, 0, -25, -50]
        .iter()
        .map(|x| {
            Command::Line(Line {
                start: Point2D::from_units(*x, -44),
                end: Point2D::from_units(*x, -36),
                weight: Scalar::from_units(3),
                color: teal,
            })
        })
        .collect();
    assert_eq!(commands, expected);
    let ticks = Yticks { increment: step(25), x_pos: 12, ticksize: 3, tickwidth: 2, color: teal };
    let commands = ticks.draw(&Rect::from_edges(0, 10, -30, 60));
    let expected: Vec<Command> = [0, 25, 50, 0, -25]
        .iter()
        .map(|y| {
            Command::Line(Line {
                start: Point2D { x: Scalar { halves: 21 }, y: Scalar::from_units(*y) },
                end: Point2D { x: Scalar { halves: 27 }, y: Scalar::from_units(*y) },
                weight: Scalar::from_units(2),
                color: teal,
            })
        })
        .collect();
    assert_eq!(commands, expected);
}

#[test]
fn ticks_of_a_flipped_viewport() {
    let win = Rect { x: viewport().x, y: viewport().y };
    let flipped = Rect {
        x: plot_rs::Span { start: 200, end: -200 },
        y: plot_rs::Span { start: 150, end: -150 },
    };
    assert_eq!(Xticks::default().draw(&win), Xticks::default().draw(&flipped));
    assert_eq!(Yticks::default().draw(&win), Yticks::default().draw(&flipped));
}

#[test]
fn ticks_draw_the_same_twice() {
    let ticks = Xticks { increment: step(3), ..Xticks::default() };
    let win = Rect::from_edges(-31, 64, -5, 90);
    assert_eq!(ticks.draw(&win), ticks.draw(&win));
    let ticks = Yticks { increment: step(4), ..Yticks::default() };
    assert_eq!(ticks.draw(&win), ticks.draw(&win));
}

#[test]
fn ticks_agree_with_the_float_stepping_of_the_host() {
    for (increment, lo, hi) in [(10, -200, 200), (7, -8, 22), (3, 5, 40), (12, -100, -7)] {
        let win = nannou_core::geom::Rect::<f32> {
            x: nannou_core::geom::Range::new(lo as f32, hi as f32),
            y: nannou_core::geom::Range::new(0.0, 0.0),
        };
        let inc = increment as f32;
        let right: Vec<f32> =
            (0..).map(|i| i as f32 * inc).take_while(|&f| f < win.right()).collect();
        let left: Vec<f32> =
            (0..).map(|i| i as f32 * inc).map(|f| -f).take_while(|&f| f > win.left()).collect();
        let expected: Vec<f32> = right.into_iter().chain(left).collect();
        let positions: Vec<f32> =
            ticks_between(step(increment), lo, hi).iter().map(|p| *p as f32).collect();
        assert_eq!(positions, expected);
    }
}
