use palette_mapper::algorithms::Algorithms;
use palette_mapper::color::Color;
use palette_mapper::distance::{DistanceAlgorithm, EuclidianDistance, EuclidianDistanceNoAlpha};
use palette_mapper::Distance;

fn white() -> Color {
    Color::rgb(255, 255, 255)
}

fn black() -> Color {
    Color::rgb(0, 0, 0)
}

fn gray() -> Color {
    Color::rgb(127, 127, 127)
}

fn metrics() -> Vec<Algorithms> {
    Algorithms::all()
}

#[test]
fn euclidian_distance_same_color() {
    assert_eq!(EuclidianDistance.distance(&white(), &white()), 0);
}

#[test]
fn euclidian_distance_white_black() {
    assert_ne!(EuclidianDistance.distance(&white(), &black()), 0);
    assert_eq!(EuclidianDistance.distance(&white(), &black()), 3 * 255 * 255);
}

#[test]
fn euclidian_distance_grey() {
    assert!(
        EuclidianDistance.distance(&white(), &black())
            > EuclidianDistance.distance(&white(), &gray())
    );
    assert_eq!(EuclidianDistance.distance(&white(), &gray()), 3 * 128 * 128);
}

#[test]
fn euclidian_distance_red() {
    assert_ne!(EuclidianDistance.distance(&white(), &Color::rgb(0, 255, 255)), 0);
}

#[test]
fn euclidian_distance_green() {
    assert_ne!(EuclidianDistance.distance(&white(), &Color::rgb(255, 0, 255)), 0);
}

#[test]
fn euclidian_distance_blue() {
    assert_ne!(EuclidianDistance.distance(&white(), &Color::rgb(255, 255, 0)), 0);
}

#[test]
fn euclidian_distance_alpha() {
    assert_ne!(
        EuclidianDistance.distance(&Color::rgba(255, 255, 255, 255), &Color::rgba(255, 255, 255, 0)),
        0
    );
    assert_eq!(
        EuclidianDistance.distance(&Color::rgba(255, 255, 255, 255), &Color::rgba(255, 255, 255, 0)),
        255 * 255
    );
}

#[test]
fn euclidian_distance_no_alpha_same_color() {
    assert_eq!(EuclidianDistanceNoAlpha.distance(&white(), &white()), 0);
}

#[test]
fn euclidian_distance_no_alpha_white_black() {
    assert_ne!(EuclidianDistanceNoAlpha.distance(&white(), &black()), 0);
}

#[test]
fn euclidian_distance_no_alpha_grey() {
    assert!(
        EuclidianDistanceNoAlpha.distance(&white(), &black())
            > EuclidianDistanceNoAlpha.distance(&white(), &gray())
    );
}

#[test]
fn euclidian_distance_no_alpha_red() {
    assert_ne!(EuclidianDistanceNoAlpha.distance(&white(), &Color::rgb(0, 255, 255)), 0);
}

#[test]
fn euclidian_distance_no_alpha_green() {
    assert_ne!(EuclidianDistanceNoAlpha.distance(&white(), &Color::rgb(255, 0, 255)), 0);
}

#[test]
fn euclidian_distance_no_alpha_blue() {
    assert_ne!(EuclidianDistanceNoAlpha.distance(&white(), &Color::rgb(255, 255, 0)), 0);
}

#[test]
fn euclidian_distance_no_alpha_ignores_alpha() {
    assert_eq!(
        EuclidianDistanceNoAlpha
            .distance(&Color::rgba(255, 255, 255, 255), &Color::rgba(255, 255, 255, 0)),
        0
    );
    assert_eq!(
        EuclidianDistanceNoAlpha.distance(&Color::rgba(1, 2, 3, 4), &Color::rgba(2, 4, 6, 200)),
        1 + 4 + 9
    );
}

#[test]
fn every_metric_puts_a_color_at_zero_from_itself() {
    let colors = [
        white(),
        black(),
        gray(),
        Color::rgba(1, 2, 3, 4),
        Color::rgba(0, 0, 0, 0),
        Color::rgba(255, 0, 128, 7),
    ];
    for metric in metrics() {
        for color in colors {
            assert_eq!(metric.distance(&color, &color), 0);
        }
    }
}

#[test]
fn every_metric_tells_white_from_black_and_gray() {
    for metric in metrics() {
        assert!(metric.distance(&white(), &black()) > 0);
        assert!(metric.distance(&white(), &black()) > metric.distance(&white(), &gray()));
    }
}

#[test]
fn every_metric_follows_its_alpha_policy() {
    let opaque = Color::rgba(255, 255, 255, 255);
    let clear = Color::rgba(255, 255, 255, 0);
    for metric in metrics() {
        if metric.respects_alpha() {
            assert_ne!(metric.distance(&opaque, &clear), 0);
        } else {
            assert_eq!(metric.distance(&opaque, &clear), 0);
        }
    }
    assert!(EuclidianDistance.respects_alpha());
    assert!(!EuclidianDistanceNoAlpha.respects_alpha());
    assert!(Algorithms::EuclidianDistance.respects_alpha());
    assert!(!Algorithms::EuclidianDistanceNoAlpha.respects_alpha());
}

#[test]
fn euclidean_formula_uses_both_colors_in_every_channel() {
    let left = Color::rgba(10, 20, 30, 40);
    let right = Color::rgba(13, 16, 42, 28);
    assert_eq!(EuclidianDistance.distance(&left, &right), 9 + 16 + 144 + 144);
    assert_eq!(EuclidianDistance.distance(&right, &left), 9 + 16 + 144 + 144);
    assert_eq!(EuclidianDistanceNoAlpha.distance(&left, &right), 9 + 16 + 144);
    assert_eq!(
        EuclidianDistance.distance(&Color::rgba(0, 0, 0, 0), &Color::rgba(0, 0, 10, 20)),
        500
    );
    assert_eq!(
        EuclidianDistance.distance(&Color::rgba(0, 0, 0, 0), &Color::rgba(255, 255, 255, 255)),
        4 * 255 * 255
    );
}

#[test]
fn registry_entries_measure_as_their_metrics() {
    let left = Color::rgba(10, 20, 30, 40);
    let right = Color::rgba(13, 16, 42, 28);
    assert_eq!(
        Algorithms::EuclidianDistance.distance(&left, &right),
        EuclidianDistance.distance(&left, &right)
    );
    assert_eq!(
        Algorithms::EuclidianDistanceNoAlpha.distance(&left, &right),
        EuclidianDistanceNoAlpha.distance(&left, &right)
    );
}

#[test]
fn distances_are_ordered_between_the_sentinels() {
    let near = Distance::new(&white(), &gray(), &EuclidianDistance);
    let far = Distance::new(&white(), &black(), &EuclidianDistance);
    let same = Distance::new(&white(), &white(), &EuclidianDistance);
    assert!(near < far);
    assert!(far > near);
    assert!(far < Distance::new_max());
    assert!(same == Distance::new_min());
    assert!(Distance::<EuclidianDistance>::new_min() < Distance::new_max());
    assert!(near != far);
    assert!(same == Distance::default());
    assert!(near <= Distance::new(&white(), &gray(), &EuclidianDistance));
}
