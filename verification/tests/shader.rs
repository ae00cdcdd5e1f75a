use rsfml::graphics::color::Color;
use rsfml::graphics::shader::rc::{Shader, ShaderCall};
use rsfml::graphics::texture::Texture;
use rsfml::native::handle::Handle;
use rsfml::native::scalar::CFloat;
use rsfml::native::sfml_types::SfBool;
use rsfml::native::text::NativeText;
use rsfml::system::vector2::Vector2f;
use rsfml::system::vector3::Vector3f;
use rsfml::traits::Wrappable;
use std::rc::Rc;

fn handle(address: usize) -> Handle {
    Handle { address }
}

fn number(value: f32) -> CFloat {
    CFloat::from_bits(value.to_bits())
}

fn shader() -> Shader {
    Shader::wrap(handle(0x1000))
}

fn text(content: &str) -> NativeText {
    NativeText::new(content)
}

#[test]
fn shader_without_sources_passes_two_null_pointers() {
    assert_eq!(
        Shader::new_from_file(None, None),
        ShaderCall::CreateFromFile { vertex: None, fragment: None }
    );
    assert_eq!(
        Shader::new_from_memory(None, None),
        ShaderCall::CreateFromMemory { vertex: None, fragment: None }
    );
}

#[test]
fn shader_that_the_native_layer_did_not_create_is_nothing() {
    assert!(Shader::from_created(Handle::null()).is_none());
}

#[test]
fn shader_that_the_native_layer_created_owns_the_handle() {
    let created = Shader::from_created(handle(0xBEEF)).unwrap();
    assert_eq!(created.unwrap(), handle(0xBEEF));
    assert!(created.textures().is_empty());
}

#[test]
fn new_from_file_marshals_each_name_that_is_there() {
    assert_eq!(
        Shader::new_from_file(Some("wave.vert"), Some("blur.frag")),
        ShaderCall::CreateFromFile {
            vertex: Some(text("wave.vert")),
            fragment: Some(text("blur.frag")),
        }
    );
    assert_eq!(
        Shader::new_from_file(Some("wave.vert"), None),
        ShaderCall::CreateFromFile { vertex: Some(text("wave.vert")), fragment: None }
    );
    assert_eq!(
        Shader::new_from_file(None, Some("blur.frag")),
        ShaderCall::CreateFromFile { vertex: None, fragment: Some(text("blur.frag")) }
    );
}

#[test]
fn new_from_file_passes_an_empty_name_as_an_empty_text() {
    assert_eq!(
        Shader::new_from_file(Some(""), None),
        ShaderCall::CreateFromFile { vertex: Some(text("")), fragment: None }
    );
}

#[test]
fn new_from_memory_uses_the_memory_entry_point() {
    let source = "void main() { gl_FragColor = vec4(1); }";
    let call = Shader::new_from_memory(None, Some(source));
    assert_eq!(call, ShaderCall::CreateFromMemory { vertex: None, fragment: Some(text(source)) });
    assert!(!matches!(call, ShaderCall::CreateFromFile { .. }));
}

#[test]
fn wrap_and_unwrap_give_the_handle_back() {
    let wrapped = Shader::wrap(handle(42));
    assert_eq!(wrapped.unwrap(), handle(42));
    assert_eq!(wrapped.unwrap(), handle(42));
    assert!(wrapped.textures().is_empty());
}

#[test]
fn set_float_parameter_passes_name_and_number() {
    let mut subject = shader();
    assert_eq!(
        subject.set_float_parameter("time", number(0.25)),
        ShaderCall::SetFloatParameter {
            shader: handle(0x1000),
            name: text("time"),
            x: number(0.25),
        }
    );
}

#[test]
fn set_float_2_parameter_passes_both_components_in_order() {
    let mut subject = shader();
    assert_eq!(
        subject.set_float_2_parameter("offset", number(1.0), number(-2.0)),
        ShaderCall::SetFloat2Parameter {
            shader: handle(0x1000),
            name: text("offset"),
            x: number(1.0),
            y: number(-2.0),
        }
    );
}

#[test]
fn set_float_3_parameter_passes_three_components_in_order() {
    let mut subject = shader();
    assert_eq!(
        subject.set_float_3_parameter("light", number(1.0), number(2.0), number(3.0)),
        ShaderCall::SetFloat3Parameter {
            shader: handle(0x1000),
            name: text("light"),
            x: number(1.0),
            y: number(2.0),
            z: number(3.0),
        }
    );
}

#[test]
fn set_float_4_parameter_passes_four_components_in_order() {
    let mut subject = shader();
    assert_eq!(
        subject.set_float_4_parameter("tint", number(1.0), number(2.0), number(3.0), number(4.0)),
        ShaderCall::SetFloat4Parameter {
            shader: handle(0x1000),
            name: text("tint"),
            x: number(1.0),
            y: number(2.0),
            z: number(3.0),
            w: number(4.0),
        }
    );
}

#[test]
fn set_vector2_parameter_passes_the_vector() {
    let mut subject = shader();
    let vector = Vector2f { x: number(0.5), y: number(8.0) };
    assert_eq!(
        subject.set_vector2_parameter("size", &vector),
        ShaderCall::SetVector2Parameter { shader: handle(0x1000), name: text("size"), vector }
    );
}

#[test]
fn set_vector3_parameter_passes_the_vector() {
    let mut subject = shader();
    let vector = Vector3f { x: number(0.5), y: number(8.0), z: number(-1.0) };
    assert_eq!(
        subject.set_vector3_parameter("normal", &vector),
        ShaderCall::SetVector3Parameter { shader: handle(0x1000), name: text("normal"), vector }
    );
}

#[test]
fn set_color_parameter_passes_the_components_unscaled() {
    let mut subject = shader();
    let color = Color { red: 255, green: 125, blue: 0, alpha: 255 };
    assert_eq!(
        subject.set_color_parameter("tint", &color),
        ShaderCall::SetColorParameter {
            shader: handle(0x1000),
            name: text("tint"),
            color: Color { red: 255, green: 125, blue: 0, alpha: 255 },
        }
    );
}

#[test]
fn set_current_texture_parameter_names_no_texture() {
    let subject = shader();
    assert_eq!(
        subject.set_current_texture_parameter("texture"),
        ShaderCall::SetCurrentTextureParameter { shader: handle(0x1000), name: text("texture") }
    );
    assert!(subject.textures().is_empty());
}

#[test]
fn bind_names_the_shader() {
    let mut subject = shader();
    assert_eq!(subject.bind(), ShaderCall::Bind { shader: handle(0x1000) });
}

#[test]
fn set_texture_parameter_passes_the_texture_handle() {
    let mut subject = shader();
    let texture = Rc::new(Texture::wrap(handle(0x2000)));
    let call = subject.set_texture_parameter("texture", texture);
    assert_eq!(
        call,
        ShaderCall::SetTextureParameter {
            shader: handle(0x1000),
            name: text("texture"),
            texture: handle(0x2000),
        }
    );
    assert_eq!(subject.textures().len(), 1);
    assert_eq!(subject.textures()[0].unwrap(), handle(0x2000));
}

#[test]
fn shader_keeps_its_texture_alive_when_all_other_references_are_dropped() {
    let mut subject = shader();
    let texture = Rc::new(Texture::wrap(handle(0x2000)));
    let watcher = Rc::downgrade(&texture);
    let _ = subject.set_texture_parameter("texture", Rc::clone(&texture));
    assert_eq!(Rc::strong_count(&texture), 2);
    drop(texture);
    assert_eq!(watcher.strong_count(), 1);
    assert_eq!(subject.textures().len(), 1);
    assert_eq!(subject.textures()[0].unwrap(), handle(0x2000));
    assert!(watcher.upgrade().is_some());
}

#[test]
fn other_parameters_leave_the_kept_texture_alone() {
    let mut subject = shader();
    let texture = Rc::new(Texture::wrap(handle(0x2000)));
    let watcher = Rc::downgrade(&texture);
    let _ = subject.set_texture_parameter("texture", texture);
    let _ = subject.set_float_parameter("time", number(1.0));
    let _ = subject.set_float_2_parameter("a", number(1.0), number(2.0));
    let _ = subject.set_float_3_parameter("b", number(1.0), number(2.0), number(3.0));
    let _ = subject.set_float_4_parameter("c", number(1.0), number(2.0), number(3.0), number(4.0));
    let _ = subject.set_vector2_parameter("d", &Vector2f { x: number(1.0), y: number(2.0) });
    let _ = subject
        .set_vector3_parameter("e", &Vector3f { x: number(1.0), y: number(2.0), z: number(3.0) });
    let _ = subject.set_color_parameter("f", &Color { red: 1, green: 2, blue: 3, alpha: 4 });
    let _ = subject.set_current_texture_parameter("g");
    let _ = subject.bind();
    assert_eq!(watcher.strong_count(), 1);
    assert_eq!(subject.textures().len(), 1);
    assert_eq!(subject.textures()[0].unwrap(), handle(0x2000));
    assert_eq!(subject.unwrap(), handle(0x1000));
}

#[test]
fn a_second_texture_is_kept_beside_the_first() {
    let mut subject = shader();
    let first = Rc::new(Texture::wrap(handle(0x2000)));
    let second = Rc::new(Texture::wrap(handle(0x3000)));
    let first_watcher = Rc::downgrade(&first);
    let second_watcher = Rc::downgrade(&second);
    let _ = subject.set_texture_parameter("a", Rc::clone(&first));
    let call = subject.set_texture_parameter("b", Rc::clone(&second));
    assert_eq!(
        call,
        ShaderCall::SetTextureParameter {
            shader: handle(0x1000),
            name: text("b"),
            texture: handle(0x3000),
        }
    );
    assert_eq!(subject.textures().len(), 2);
    assert!(Rc::ptr_eq(&subject.textures()[0], &first));
    assert!(Rc::ptr_eq(&subject.textures()[1], &second));
    drop(first);
    drop(second);
    assert_eq!(first_watcher.strong_count(), 1);
    assert_eq!(second_watcher.strong_count(), 1);
    assert_eq!(subject.textures()[0].unwrap(), handle(0x2000));
    assert_eq!(subject.textures()[1].unwrap(), handle(0x3000));
}

#[test]
fn a_texture_set_again_under_the_same_name_keeps_the_earlier_one_too() {
    let mut subject = shader();
    let first = Rc::new(Texture::wrap(handle(0x2000)));
    let second = Rc::new(Texture::wrap(handle(0x3000)));
    let first_watcher = Rc::downgrade(&first);
    let _ = subject.set_texture_parameter("texture", first);
    let _ = subject.set_texture_parameter("texture", second);
    assert_eq!(first_watcher.strong_count(), 1);
    assert_eq!(subject.textures().len(), 2);
}

#[test]
fn textures_are_let_go_of_only_when_the_shader_ends() {
    let mut subject = shader();
    let first = Rc::new(Texture::wrap(handle(0x2000)));
    let second = Rc::new(Texture::wrap(handle(0x3000)));
    let first_watcher = Rc::downgrade(&first);
    let second_watcher = Rc::downgrade(&second);
    let _ = subject.set_texture_parameter("a", first);
    let _ = subject.set_texture_parameter("b", second);
    let _ = subject.set_float_parameter("time", number(1.0));
    let _ = subject.bind();
    assert_eq!(first_watcher.strong_count(), 1);
    assert_eq!(second_watcher.strong_count(), 1);
    let (call, kept) = subject.destroy();
    assert_eq!(call, ShaderCall::Destroy { shader: handle(0x1000) });
    assert_eq!(first_watcher.strong_count(), 1);
    assert_eq!(second_watcher.strong_count(), 1);
    drop(kept);
    assert_eq!(first_watcher.strong_count(), 0);
    assert_eq!(second_watcher.strong_count(), 0);
}

#[test]
fn two_shaders_share_one_texture() {
    let mut one = Shader::wrap(handle(0x1000));
    let mut two = Shader::wrap(handle(0x1100));
    let texture = Rc::new(Texture::wrap(handle(0x2000)));
    let watcher = Rc::downgrade(&texture);
    let _ = one.set_texture_parameter("texture", Rc::clone(&texture));
    let _ = two.set_texture_parameter("texture", texture);
    assert_eq!(watcher.strong_count(), 2);
    let (_, from_one) = one.destroy();
    drop(from_one);
    assert_eq!(watcher.strong_count(), 1);
    assert_eq!(two.textures()[0].unwrap(), handle(0x2000));
}

#[test]
fn destroy_names_the_shader_and_hands_the_textures_out_in_order() {
    let mut subject = shader();
    let first = Rc::new(Texture::wrap(handle(0x2000)));
    let second = Rc::new(Texture::wrap(handle(0x3000)));
    let _ = subject.set_texture_parameter("a", Rc::clone(&first));
    let _ = subject.set_texture_parameter("b", Rc::clone(&second));
    let (call, kept) = subject.destroy();
    assert_eq!(call, ShaderCall::Destroy { shader: handle(0x1000) });
    assert_eq!(kept.len(), 2);
    assert!(Rc::ptr_eq(&kept[0], &first));
    assert!(Rc::ptr_eq(&kept[1], &second));
}

#[test]
fn destroy_of_a_shader_without_texture_hands_nothing_out() {
    let (call, kept) = shader().destroy();
    assert_eq!(call, ShaderCall::Destroy { shader: handle(0x1000) });
    assert!(kept.is_empty());
}

#[test]
fn is_available_call_names_the_query() {
    assert_eq!(Shader::is_available_call(), ShaderCall::IsAvailable);
    assert_eq!(Shader::is_available_call(), Shader::is_available_call());
}

#[test]
fn is_available_is_the_native_answer() {
    assert!(Shader::is_available(SfBool::SfTrue));
    assert!(!Shader::is_available(SfBool::SfFalse));
}

#[test]
fn is_available_gives_the_same_result_for_the_same_answer() {
    for answer in [SfBool::SfFalse, SfBool::SfTrue] {
        let first = Shader::is_available(answer);
        let second = Shader::is_available(answer);
        assert_eq!(first, second);
        assert_eq!(first, answer.to_bool());
    }
}

#[test]
fn texture_wrap_and_unwrap_give_the_handle_back() {
    let texture = Texture::wrap(handle(7));
    assert_eq!(texture.unwrap(), handle(7));
}
