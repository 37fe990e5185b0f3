use misfire::render_api::buffer::{BufferElement, BufferLayout, ShaderDataType};

#[test]
fn data_type_sizes() {
    let expected = [
        (ShaderDataType::Float, 4, 1),
        (ShaderDataType::Vec2, 8, 2),
        (ShaderDataType::Vec3, 12, 3),
        (ShaderDataType::Vec4, 16, 4),
        (ShaderDataType::Mat3, 36, 9),
        (ShaderDataType::Mat4, 64, 16),
        (ShaderDataType::Int, 4, 1),
        (ShaderDataType::Int2, 8, 2),
        (ShaderDataType::Int3, 12, 3),
        (ShaderDataType::Int4, 16, 4),
        (ShaderDataType::Bool, 1, 1),
    ];
    for (t, size, count) in expected {
        assert_eq!(ShaderDataType::get_size(&t), size);
        let e = BufferElement::new(t, String::from("x"), false);
        assert_eq!(*e.get_size(), size);
        assert_eq!(e.get_component_count(), count);
        assert_eq!(e.get_offset(), 0);
        assert_eq!(*e.get_data_type(), t);
    }
}

#[test]
fn layout_places_elements_one_after_another() {
    let layout = BufferLayout::new(vec![
        BufferElement::new(ShaderDataType::Vec3, String::from("a_Position"), false),
        BufferElement::new(ShaderDataType::Vec2, String::from("a_TexCoord"), true),
        BufferElement::new(ShaderDataType::Bool, String::from("a_Flag"), false),
    ]);
    let offsets: Vec<u32> = layout.get_elements().iter().map(|e| e.get_offset()).collect();
    assert_eq!(offsets, vec![0, 12, 20]);
    assert_eq!(layout.get_stride(), 21);
    assert!(*layout.get_elements()[1].get_normailzed());
    assert!(!*layout.get_elements()[0].get_normailzed());
}

#[test]
fn empty_layout_has_zero_stride() {
    let layout = BufferLayout::new(Vec::new());
    assert_eq!(layout.get_stride(), 0);
    assert!(layout.get_elements().is_empty());
}
