use safehouse_render::add;
use safehouse_render::entity::derived_name;
use safehouse_render::model_unpacker;
use safehouse_render::vertex::{adv_vertex_layout, color_vertex_layout, tex_vertex_layout};

#[test]
fn it_works() {
    let result = add(2, 2);
    assert_eq!(result, 4);
}

#[test]
fn unpacks_big_endian_header() {
    let model = [0u8, 0, 1, 2, 9, 9];
    assert_eq!(model_unpacker(&model), 258);
    let model = [0xABu8, 0xCD, 0xEF, 0x01];
    assert_eq!(model_unpacker(&model), 0xABCD_EF01);
}

#[test]
fn derives_cache_keys_by_concatenation() {
    assert_eq!(derived_name("ball", "_model"), "ball_model");
    assert_eq!(derived_name("Paddle", "_binds"), "Paddle_binds");
    assert_eq!(derived_name("", "_pipe"), "_pipe");
}

#[test]
fn vertex_layouts_are_tightly_packed() {
    let color = color_vertex_layout();
    assert_eq!(color.stride, 32);
    assert_eq!(color.attributes[1].offset, 16);
    assert_eq!(color.attributes[1].shader_location, 1);
    let tex = tex_vertex_layout();
    assert_eq!(tex.stride, 24);
    let adv = adv_vertex_layout();
    assert_eq!(adv.stride, 48);
    let offsets: Vec<u64> = adv.attributes.iter().map(|a| a.offset).collect();
    assert_eq!(offsets, vec![0, 16, 28, 40, 44]);
}
