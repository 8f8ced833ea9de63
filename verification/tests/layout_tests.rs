use polygon::layout::{AttribLayout, IndexBuffer, VertexArray, VertexBuffer};

#[test]
fn element_count_exact_division() {
    let mut buffer = VertexBuffer::new();
    let data: Vec<u32> = (0..10u32).collect();
    buffer.set_data_f32(&data);
    // (10 - 1) / 3 + 2 = 3 + 2 = 5, exact division
    buffer.set_attrib_f32("position", AttribLayout { elements: 3, stride: 2, offset: 1 });
    assert_eq!(buffer.element_len, 5);
}

#[test]
fn element_count_truncating_division() {
    let mut buffer = VertexBuffer::new();
    let data: Vec<u32> = (0..11u32).collect();
    buffer.set_data_f32(&data);
    // (11 - 0) / 3 + 4 = 3 + 4 = 7, truncating division
    buffer.set_attrib_f32("position", AttribLayout { elements: 3, stride: 4, offset: 0 });
    assert_eq!(buffer.element_len, 7);
}

#[test]
fn attrib_lookup_and_overwrite() {
    let mut buffer = VertexBuffer::new();
    let data: Vec<u32> = (0..32u32).collect();
    buffer.set_data_f32(&data);
    let first = AttribLayout { elements: 4, stride: 8, offset: 0 };
    let second = AttribLayout { elements: 3, stride: 8, offset: 4 };
    buffer.set_attrib_f32("position", first);
    assert_eq!(buffer.attrib("position"), Some(&first));
    assert_eq!(buffer.attrib("normal"), None);
    // last write wins for a repeated name
    buffer.set_attrib_f32("position", second);
    assert_eq!(buffer.attrib("position"), Some(&second));
}

#[test]
fn upload_replaces_contents() {
    let mut buffer = VertexBuffer::new();
    buffer.set_data_f32(&[1, 2, 3]);
    buffer.set_data_f32(&[4, 5, 6, 7]);
    assert_eq!(buffer.data, vec![4, 5, 6, 7]);

    let mut indices = IndexBuffer::new();
    indices.set_data_u32(&[0, 1, 2]);
    indices.set_data_u32(&[2, 1, 0, 3]);
    assert_eq!(indices.data, vec![2, 1, 0, 3]);
}

#[test]
fn vertex_array_owns_buffers() {
    let mut buffer = VertexBuffer::new();
    buffer.set_data_f32(&[1, 2, 3, 4]);
    let array = VertexArray::new(9, buffer);
    assert_eq!(array.name, 9);
    assert!(array.index_buffer.is_none());

    let mut buffer = VertexBuffer::new();
    buffer.set_data_f32(&[1, 2, 3, 4]);
    let mut indices = IndexBuffer::new();
    indices.set_data_u32(&[0, 1, 2]);
    let array = VertexArray::with_index_buffer(10, buffer, indices);
    assert_eq!(array.name, 10);
    assert_eq!(array.index_buffer.as_ref().unwrap().data, vec![0, 1, 2]);
}
