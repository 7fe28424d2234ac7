use glium::program::Program;
use glium::vertex::{
    Attribute, AttributeType, IntoVerticesSource, MultiVerticesSource, PerInstance,
    VertexBufferAny, VertexBufferAnySlice, VerticesSource,
};

fn parts(s: VerticesSource) -> (u32, usize, usize, bool) {
    let VerticesSource::VertexBuffer(b, o, l, i) = s;
    (b.id, o, l, i)
}

#[test]
fn per_instance_marks_the_source() {
    let buf = VertexBufferAny { id: 3, len: 20 };
    let slice = VertexBufferAnySlice { buffer: &buf, offset: 5, len: 6 };
    assert_eq!(parts(slice.into_vertices_source()), (3, 5, 6, false));
    assert_eq!(parts(PerInstance(slice).into_vertices_source()), (3, 5, 6, true));
    assert_eq!(parts((&buf).into_vertices_source()), (3, 0, 20, false));
}

#[test]
fn tuples_flatten_in_order() {
    let a = VertexBufferAny { id: 1, len: 3 };
    let b = VertexBufferAny { id: 2, len: 4 };
    let c = VertexBufferAny { id: 3, len: 5 };
    let list: Vec<_> = (&a, &b, PerInstance(VertexBufferAnySlice { buffer: &c, offset: 1, len: 2 }))
        .iter()
        .into_iter()
        .map(parts)
        .collect();
    assert_eq!(list, vec![(1, 0, 3, false), (2, 0, 4, false), (3, 1, 2, true)]);
    let single: Vec<_> = (&a).iter().into_iter().map(parts).collect();
    assert_eq!(single, vec![(1, 0, 3, false)]);
}

#[test]
fn attribute_types_of_integers() {
    assert_eq!(<i8 as Attribute>::get_type(), AttributeType::I8);
    assert_eq!(<u16 as Attribute>::get_type(), AttributeType::U16);
    assert_eq!(<u32 as Attribute>::get_type(), AttributeType::U32);
}

#[test]
fn frag_data_location_takes_the_first_match() {
    let p = Program {
        id: 1,
        outputs: vec![("color".to_string(), 2), ("color".to_string(), 5), ("normal".to_string(), 0)],
        transform_feedback_mode: None,
        transform_feedback_varyings: vec![],
    };
    assert_eq!(p.get_frag_data_location(&"color".to_string()), Some(2));
    assert_eq!(p.get_frag_data_location(&"normal".to_string()), Some(0));
    assert_eq!(p.get_frag_data_location(&"depth".to_string()), None);
}
