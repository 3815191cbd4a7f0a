use watershot::errors::{NotSlurpStyleError, NotXRectSelStyleError, UnparseableRectError};
use watershot::rect::Rect;

#[test]
fn extents_from_valid_slurp_style() {
    assert_eq!(
        Rect::from_slurp_style("50,100 1920x1080").unwrap(),
        Rect {
            x: 50,
            y: 100,
            width: 1920,
            height: 1080
        }
    );
}

#[test]
fn extents_from_invalid_slurp_style() {
    assert_eq!(Rect::from_slurp_style("x,y wxh"), Err(NotSlurpStyleError));

    assert_eq!(Rect::from_slurp_style("0,0"), Err(NotSlurpStyleError));

    assert_eq!(Rect::from_slurp_style("1920x1080"), Err(NotSlurpStyleError));

    assert_eq!(Rect::from_slurp_style("1,y 1920xh"), Err(NotSlurpStyleError));

    assert_eq!(Rect::from_slurp_style(",x"), Err(NotSlurpStyleError));

    assert_eq!(
        Rect::from_slurp_style("1920x1080+50+100"),
        Err(NotSlurpStyleError)
    );
}

#[test]
fn extents_from_valid_xrectsel_style() {
    assert_eq!(
        Rect::from_xrectsel_style("1920x1080+50+100").unwrap(),
        Rect {
            x: 50,
            y: 100,
            width: 1920,
            height: 1080
        }
    );
}

#[test]
fn extents_from_invalid_xrectsel_style() {
    assert_eq!(Rect::from_xrectsel_style("wxh+x+y"), Err(NotXRectSelStyleError));

    assert_eq!(Rect::from_xrectsel_style("50+100"), Err(NotXRectSelStyleError));

    assert_eq!(Rect::from_xrectsel_style("1920x1080"), Err(NotXRectSelStyleError));

    assert_eq!(Rect::from_xrectsel_style("1920xh+1+y"), Err(NotXRectSelStyleError));

    assert_eq!(Rect::from_xrectsel_style("x++"), Err(NotXRectSelStyleError));

    assert_eq!(
        Rect::from_xrectsel_style("50,100 1920x1080"),
        Err(NotXRectSelStyleError)
    );
}

#[test]
fn both_styles_agree_on_the_same_rect() {
    let expected = Rect {
        x: 50,
        y: 100,
        width: 1920,
        height: 1080,
    };
    assert_eq!(Rect::from_slurp_style("50,100 1920x1080").unwrap(), expected);
    assert_eq!(Rect::from_xrectsel_style("1920x1080+50+100").unwrap(), expected);
    assert_eq!(Rect::from_slurp_style("1920x1080"), Err(NotSlurpStyleError));
    assert_eq!(Rect::from_xrectsel_style("1920x1080"), Err(NotXRectSelStyleError));
    assert_eq!(Rect::from_any_style("1920x1080"), Err(UnparseableRectError));
}

#[test]
fn any_style_tries_slurp_then_xrectsel() {
    let expected = Rect {
        x: 50,
        y: 100,
        width: 1920,
        height: 1080,
    };
    assert_eq!(Rect::from_any_style("50,100 1920x1080"), Ok(expected));
    assert_eq!(Rect::from_any_style("1920x1080+50+100"), Ok(expected));
    assert_eq!(Rect::from_any_style("nonsense"), Err(UnparseableRectError));
}

#[test]
fn from_str_parses_either_style() {
    let parsed: Rect = "7,8 20x30".parse().unwrap();
    assert_eq!(
        parsed,
        Rect {
            x: 7,
            y: 8,
            width: 20,
            height: 30
        }
    );
    let parsed: Rect = "20x30+7+8".parse().unwrap();
    assert_eq!(
        parsed,
        Rect {
            x: 7,
            y: 8,
            width: 20,
            height: 30
        }
    );
    let failed: Result<Rect, String> = "garbage".parse();
    assert_eq!(failed, Err("Impossible to parse rectangle".to_string()));
}

#[test]
fn numbers_too_large_for_i32_are_rejected() {
    assert_eq!(
        Rect::from_slurp_style("99999999999,0 10x10"),
        Err(NotSlurpStyleError)
    );
    assert_eq!(
        Rect::from_xrectsel_style("10x10+0+99999999999"),
        Err(NotXRectSelStyleError)
    );
    // The largest i32 still parses.
    assert_eq!(
        Rect::from_slurp_style("2147483647,0 1x1").unwrap(),
        Rect {
            x: 2147483647,
            y: 0,
            width: 1,
            height: 1
        }
    );
}

#[test]
fn parsing_matches_a_prefix_and_ignores_trailing_text() {
    assert_eq!(
        Rect::from_slurp_style("1,2 3x4 and more").unwrap(),
        Rect {
            x: 1,
            y: 2,
            width: 3,
            height: 4
        }
    );
    assert_eq!(
        Rect::from_xrectsel_style("3x4+1+2garbage").unwrap(),
        Rect {
            x: 1,
            y: 2,
            width: 3,
            height: 4
        }
    );
}
