use malen::gl::draw::{draw_elements_call, DrawElementsCall};
use malen::gl::draw_unit::is_valid_element_range;
use malen::gl::{Element, PrimitiveMode};

#[test]
fn draw_call_of_element_range() {
    let call = draw_elements_call::<u32>(PrimitiveMode::Triangle, 6, 18, 1).unwrap();
    assert_eq!(
        call,
        DrawElementsCall {
            mode: glow::TRIANGLES,
            count: 12,
            element_type: glow::UNSIGNED_INT,
            offset: 24,
            instances: 1
        }
    );
    let call = draw_elements_call::<u16>(PrimitiveMode::Line, 3, 4, 7).unwrap();
    assert_eq!(
        call,
        DrawElementsCall {
            mode: glow::LINES,
            count: 1,
            element_type: glow::UNSIGNED_SHORT,
            offset: 6,
            instances: 7
        }
    );
}

#[test]
fn draw_call_nothing_to_draw() {
    assert_eq!(draw_elements_call::<u32>(PrimitiveMode::Triangle, 5, 5, 1), None);
    assert_eq!(draw_elements_call::<u32>(PrimitiveMode::Triangle, 0, 5, 0), None);
}

#[test]
fn element_types_and_ranges() {
    assert_eq!(<u32 as Element>::to_gl(), glow::UNSIGNED_INT);
    assert_eq!(<u16 as Element>::to_gl(), glow::UNSIGNED_SHORT);
    assert_eq!(PrimitiveMode::Line.to_gl(), glow::LINES);
    assert!(is_valid_element_range(0, 3, 3));
    assert!(!is_valid_element_range(2, 1, 3));
    assert!(!is_valid_element_range(0, 4, 3));
}

#[test]
fn empty_ranges_draw_nothing_whatever_their_start() {
    assert_eq!(draw_elements_call::<u32>(PrimitiveMode::Triangle, usize::MAX, usize::MAX, 1), None);
    assert_eq!(draw_elements_call::<u16>(PrimitiveMode::Line, 0, usize::MAX, 0), None);
}
