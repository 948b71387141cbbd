use noise_texture::params::{NoiseSetting, TexGeneratorParams, ONE_BITS};
use noise_texture::texture_simulator::Command;
use noise_texture::TextureSimulator;

fn sample_setting() -> NoiseSetting {
    NoiseSetting {
        simu_ty: Some(2),
        back_color: [0.0f32.to_bits(), 0.0f32.to_bits(), 0.0f32.to_bits()],
        front_color: [1.0f32.to_bits(), 1.0f32.to_bits(), 1.0f32.to_bits()],
        noise_scale: 0.5f32.to_bits(),
        octave: 4,
        lacunarity: 2.0f32.to_bits(),
        gain: 0.5f32.to_bits(),
    }
}

fn all_zero(p: &TexGeneratorParams) -> bool {
    p.to_bytes().iter().all(|b| *b == 0)
}

#[test]
fn one_bits_is_one() {
    assert_eq!(f32::from_bits(ONE_BITS), 1.0);
}

#[test]
fn parameter_block_from_sample_setting() {
    let p = TexGeneratorParams::from_setting(&sample_setting());
    let bg: Vec<f32> = p.bg_color.iter().map(|b| f32::from_bits(*b)).collect();
    let front: Vec<f32> = p.front_color.iter().map(|b| f32::from_bits(*b)).collect();
    assert_eq!(bg, vec![0.0, 0.0, 0.0, 1.0]);
    assert_eq!(front, vec![1.0, 1.0, 1.0, 1.0]);
    assert_eq!(f32::from_bits(p.noise_scale), 0.5);
    assert_eq!(p.octave, 4);
    assert_eq!(f32::from_bits(p.lacunarity), 2.0);
    assert_eq!(f32::from_bits(p.gain), 0.5);
    assert_eq!(p.ty, 2);
    assert_eq!(p.padding, [0, 0, 0]);
}

#[test]
fn parameter_block_bytes_follow_field_order() {
    let p = TexGeneratorParams::from_setting(&sample_setting());
    let bytes = p.to_bytes();
    assert_eq!(bytes.len(), 64);
    let mut expected: Vec<u8> = Vec::new();
    for f in [0.0f32, 0.0, 0.0, 1.0, 1.0, 1.0, 1.0, 1.0, 0.5] {
        expected.extend_from_slice(&f.to_le_bytes());
    }
    expected.extend_from_slice(&4i32.to_le_bytes());
    expected.extend_from_slice(&2.0f32.to_le_bytes());
    expected.extend_from_slice(&0.5f32.to_le_bytes());
    expected.extend_from_slice(&2i32.to_le_bytes());
    expected.extend_from_slice(&[0u8; 12]);
    assert_eq!(bytes, expected);
    assert_eq!(&bytes[12..16], &[0x00, 0x00, 0x80, 0x3f]);
}

#[test]
fn negative_octave_is_written_in_twos_complement() {
    let mut s = sample_setting();
    s.octave = -2;
    let bytes = TexGeneratorParams::from_setting(&s).to_bytes();
    assert_eq!(&bytes[36..40], &[0xfe, 0xff, 0xff, 0xff]);
}

#[test]
fn zeroed_block_is_all_zero_bytes() {
    assert!(all_zero(&TexGeneratorParams::zeroed()));
}

#[test]
fn new_simulator_waits_for_first_generation() {
    let sim = TextureSimulator::new();
    assert!(sim.needs_regeneration());
    assert!(all_zero(&sim.uniform_data()));
}

#[test]
fn first_draw_generates_then_draws() {
    let mut sim = TextureSimulator::new();
    let cmds = sim.draw_by_rpass();
    assert_eq!(cmds.len(), 2);
    assert!(matches!(cmds[0], Command::GenerateTexture));
    assert!(matches!(cmds[1], Command::DrawSphere));
    assert!(!sim.needs_regeneration());
}

#[test]
fn texture_generated_once_over_many_draws() {
    let mut sim = TextureSimulator::new();
    let setting = sample_setting();
    let mut generated = 0;
    let mut drawn = 0;
    for frame in 0..5 {
        let _ = sim.update_by(&setting);
        for c in sim.draw_by_rpass() {
            match c {
                Command::GenerateTexture => {
                    assert_eq!(frame, 0);
                    generated += 1;
                }
                Command::DrawSphere => drawn += 1,
                Command::WriteUniform(_) => panic!("draw wrote the uniform buffer"),
            }
        }
    }
    assert_eq!(generated, 1);
    assert_eq!(drawn, 5);
}

#[test]
fn update_writes_assembled_block() {
    let mut sim = TextureSimulator::new();
    match sim.update_by(&sample_setting()) {
        Command::WriteUniform(p) => {
            assert_eq!(p.ty, 2);
            assert_eq!(p.octave, 4);
            assert_eq!(p.bg_color[3], ONE_BITS);
        }
        _ => panic!("update must write the uniform buffer"),
    }
    assert_eq!(sim.uniform_data().ty, 2);
    assert!(sim.needs_regeneration());
}

#[test]
fn frame_writes_uniform_before_generation_and_draw() {
    let mut sim = TextureSimulator::new();
    let first = sim.frame(&sample_setting());
    assert_eq!(first.len(), 3);
    assert!(matches!(first[0], Command::WriteUniform(p) if p.ty == 2));
    assert!(matches!(first[1], Command::GenerateTexture));
    assert!(matches!(first[2], Command::DrawSphere));
    let second = sim.frame(&sample_setting());
    assert_eq!(second.len(), 2);
    assert!(matches!(second[0], Command::WriteUniform(_)));
    assert!(matches!(second[1], Command::DrawSphere));
}

#[test]
fn workgroup_count_and_compute_change_nothing() {
    let mut sim = TextureSimulator::new();
    sim.update_workgroup_count((8, 8, 1));
    sim.compute();
    assert!(sim.needs_regeneration());
    assert!(all_zero(&sim.uniform_data()));
}
