use std::collections::HashMap;

use misfire::render_api::buffer::{BufferElement, BufferLayout, ShaderDataType};
use misfire::render_api::open_gl::{
    flip_vertical, is_well_formed_shader_source, is_white_space_char, pick_config, pre_process_shader, shader_type_from_string,
    shader_type_to_open_gl_type, vertex_attributes, ConfigTraits, VertexAttribute, BOOL, FLOAT,
    FRAGMENT_SHADER, INT, VERTEX_SHADER,
};

#[test]
fn flip_two_rows() {
    let out = flip_vertical(vec![1, 2, 3, 4], 1, 2, 2);
    assert_eq!(out, vec![3, 4, 1, 2]);
}

#[test]
fn flip_three_rows_keeps_the_middle_and_the_tail() {
    let pixels = vec![1, 1, 2, 2, 3, 3, 9];
    let out = flip_vertical(pixels.clone(), 2, 3, 1);
    assert_eq!(out, vec![3, 3, 2, 2, 1, 1, 9]);
    let back = flip_vertical(out, 2, 3, 1);
    assert_eq!(back, pixels);
}

#[test]
fn flip_one_row_changes_nothing() {
    assert_eq!(flip_vertical(vec![5, 6, 7], 3, 1, 1), vec![5, 6, 7]);
    assert_eq!(flip_vertical(vec![5, 6, 7], 100, 0, 4), vec![5, 6, 7]);
}

#[test]
fn stage_names() {
    assert_eq!(shader_type_from_string("vertex"), VERTEX_SHADER);
    assert_eq!(shader_type_from_string("fragment"), FRAGMENT_SHADER);
    assert_eq!(shader_type_from_string("pixel"), FRAGMENT_SHADER);
    assert_eq!(VERTEX_SHADER, 0x8B31);
    assert_eq!(FRAGMENT_SHADER, 0x8B30);
}

#[test]
fn gl_types_of_data_types() {
    assert_eq!(shader_type_to_open_gl_type(&ShaderDataType::Mat4), FLOAT);
    assert_eq!(shader_type_to_open_gl_type(&ShaderDataType::Int3), INT);
    assert_eq!(shader_type_to_open_gl_type(&ShaderDataType::Bool), BOOL);
    assert_eq!(FLOAT, 0x1406);
    assert_eq!(INT, 0x1404);
    assert_eq!(BOOL, 0x8B56);
}

fn sources(text: &str) -> HashMap<u32, String> {
    pre_process_shader(String::from(text))
}

#[test]
fn shader_file_is_split_into_stages() {
    let m = sources("#type vertex\nvoid main() {}\n#type fragment\r\n\r\n  out vec4 color;\n");
    assert_eq!(m.len(), 2);
    assert_eq!(m[&VERTEX_SHADER], "void main() {}\n");
    assert_eq!(m[&FRAGMENT_SHADER], "out vec4 color;\n");
}

#[test]
fn stage_name_is_trimmed_and_pixel_is_fragment() {
    let m = sources("// header\n#type   pixel  \nA\n");
    assert_eq!(m.len(), 1);
    assert_eq!(m[&FRAGMENT_SHADER], "A\n");
}

#[test]
fn later_stage_replaces_earlier_one() {
    let m = sources("#type vertex\nfirst\n#type vertex\nsecond");
    assert_eq!(m.len(), 1);
    assert_eq!(m[&VERTEX_SHADER], "second");
}

#[test]
fn file_without_marker_has_no_stage() {
    assert!(sources("void main() {}\n").is_empty());
    assert!(sources("").is_empty());
}

#[test]
fn last_marker_without_text_gives_no_stage() {
    let m = sources("#type vertex\nbody\n#type fragment\n");
    assert_eq!(m.len(), 1);
    assert_eq!(m[&VERTEX_SHADER], "body\n");
}

#[test]
fn white_space_characters() {
    for c in [' ', '\t', '\n', '\r', '\u{0B}', '\u{0C}', '\u{85}', '\u{A0}', '\u{2003}', '\u{3000}'] {
        assert!(is_white_space_char(c));
        assert_eq!(is_white_space_char(c), c.is_whitespace());
    }
    for c in ['a', '#', '\u{200B}', '\u{0}'] {
        assert!(!is_white_space_char(c));
        assert_eq!(is_white_space_char(c), c.is_whitespace());
    }
}

#[test]
fn attributes_of_a_layout() {
    let layout = BufferLayout::new(vec![
        BufferElement::new(ShaderDataType::Vec3, String::from("a_Position"), false),
        BufferElement::new(ShaderDataType::Vec4, String::from("a_Color"), true),
    ]);
    let attributes = vertex_attributes(&layout);
    assert_eq!(
        attributes,
        vec![
            VertexAttribute { index: 0, component_count: 3, gl_type: FLOAT, normalized: 0, stride: 28, offset: 0 },
            VertexAttribute { index: 1, component_count: 4, gl_type: FLOAT, normalized: 1, stride: 28, offset: 12 },
        ]
    );
}

#[test]
fn config_choice() {
    assert_eq!(pick_config(&Vec::new()), None);
    let configs = vec![
        ConfigTraits { supports_transparency: Some(false), num_samples: 0 },
        ConfigTraits { supports_transparency: Some(true), num_samples: 0 },
        ConfigTraits { supports_transparency: None, num_samples: 4 },
        ConfigTraits { supports_transparency: Some(true), num_samples: 2 },
    ];
    assert_eq!(pick_config(&configs), Some(3));
    let two = vec![
        ConfigTraits { supports_transparency: None, num_samples: 4 },
        ConfigTraits { supports_transparency: Some(false), num_samples: 4 },
    ];
    assert_eq!(pick_config(&two), Some(0));
}

#[test]
fn malformed_shader_files() {
    let ok = |t: &str| is_well_formed_shader_source(&String::from(t));
    assert!(ok("#type vertex\nbody"));
    assert!(ok("no marker at all"));
    assert!(ok("#type geometry\n"));
    assert!(!ok("#type vertex"));
    assert!(!ok("#type\nbody"));
    assert!(!ok("#type\u{e9}vertex\nbody"));
    assert!(!ok("#type geometry\nbody"));
    assert!(!ok("#type vertex\nbody\n#type hull\nmore"));
}

#[test]
fn white_space_agrees_with_every_char() {
    for n in 0u32..=0x10FFFF {
        if let Some(c) = char::from_u32(n) {
            assert_eq!(is_white_space_char(c), c.is_whitespace(), "char {:x}", n);
        }
    }
}

/// Splits a shader file the way the engine always has, with the string
/// searching of the standard library.
fn split_with_std(source: &str) -> HashMap<u32, String> {
    fn stage(name: &str) -> u32 {
        match name {
            "vertex" => VERTEX_SHADER,
            "fragment" | "pixel" => FRAGMENT_SHADER,
            _ => panic!("Invaild shader type"),
        }
    }
    let mut out = HashMap::new();
    let token = "#type";
    let mut pos_opt = source.find(token);
    while let Some(pos) = pos_opt {
        let eol = source[pos..].find(|c| c == '\r' || c == '\n').unwrap() + pos;
        let begin = pos + token.len() + 1;
        let name = source[begin..eol].trim().to_string();
        let next_line_pos = source[eol..].find(|c| !"\r\n".contains(c));
        if let Some(next_line) = next_line_pos {
            pos_opt = source[next_line + eol..].find(token).map(|p| p + next_line + eol);
            if let Some(pos) = pos_opt {
                out.insert(stage(&name), source[next_line + eol..pos].trim_start().to_string());
            } else {
                out.insert(stage(&name), source[next_line + eol..].trim_start().to_string());
                break;
            }
        } else {
            break;
        }
    }
    out
}

#[test]
fn splitting_agrees_with_std_searching() {
    let files = [
        "#type vertex\n#version 410\nin vec3 p;\nvoid main() {}\n\n#type fragment\nout vec4 c;\nvoid main() { c = vec4(1.0); }\n",
        "header\r\n#type pixel\r\n\r\n\t  body with \u{00e9}\u{3000} text\r\n#type vertex \r\n  v\n",
        "#type\tvertex\t\nx#typ\n#type fragment\n\u{2003}y",
        "#type vertex\n\n\n",
        "#type vertex\nonly vertex",
        "",
        "nothing here",
        "#type fragment\na\n#type fragment\nb\n#type vertex\nc\n#type vertex\n",
    ];
    for f in files {
        assert!(is_well_formed_shader_source(&String::from(f)));
        let ours = pre_process_shader(String::from(f));
        assert_eq!(ours, split_with_std(f), "file {:?}", f);
        for text in ours.values() {
            assert!(!text.contains("#type"));
        }
    }
}
