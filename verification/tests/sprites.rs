use battle_assets::sprites::{count_frames, group_frame_textures, FramePath, SpriteFrames};
use macroquad::miniquad::{RawId, TextureId};
use macroquad::texture::Texture2D;

fn texture(id: u32) -> Texture2D {
    Texture2D::from_miniquad_texture(TextureId::from_raw_id(RawId::OpenGl(id)))
}

fn object(frames: &[(&str, &str)]) -> SpriteFrames {
    SpriteFrames {
        frames: frames
            .iter()
            .map(|(name, path)| FramePath { name: name.to_string(), path: path.to_string() })
            .collect(),
    }
}

fn table() -> Vec<SpriteFrames> {
    vec![
        object(&[("", "a.png"), ("hit", "a_hit.png"), ("dead", "a_dead.png")]),
        object(&[]),
        object(&[("", "b.png")]),
        object(&[("", "c.png"), ("open", "c_open.png")]),
    ]
}

#[test]
fn count_frames_adds_up_all_objects() {
    assert_eq!(count_frames(&Vec::new()), Some(0));
    assert_eq!(count_frames(&vec![object(&[]), object(&[])]), Some(0));
    assert_eq!(count_frames(&table()), Some(6));
}

#[test]
fn grouping_follows_the_table() {
    let textures: Vec<Texture2D> = (10..16).map(texture).collect();
    let groups = group_frame_textures(&table(), textures).unwrap();
    assert_eq!(groups.len(), 4);
    let names: Vec<Vec<&str>> =
        groups.iter().map(|g| g.iter().map(|f| f.name.as_str()).collect()).collect();
    assert_eq!(names, vec![vec!["", "hit", "dead"], vec![], vec![""], vec!["", "open"]]);
    assert_eq!(groups[0][0].texture, texture(10));
    assert_eq!(groups[0][1].texture, texture(11));
    assert_eq!(groups[0][2].texture, texture(12));
    assert_eq!(groups[2][0].texture, texture(13));
    assert_eq!(groups[3][0].texture, texture(14));
    assert_eq!(groups[3][1].texture, texture(15));
}

#[test]
fn grouping_needs_one_texture_per_frame() {
    assert!(group_frame_textures(&table(), (0..5).map(texture).collect()).is_none());
    assert!(group_frame_textures(&table(), (0..7).map(texture).collect()).is_none());
    assert!(group_frame_textures(&table(), Vec::new()).is_none());
    assert!(group_frame_textures(&Vec::new(), vec![texture(0)]).is_none());
}

#[test]
fn grouping_an_empty_table_gives_no_groups() {
    let groups = group_frame_textures(&Vec::new(), Vec::new()).unwrap();
    assert!(groups.is_empty());
    let groups = group_frame_textures(&vec![object(&[]), object(&[])], Vec::new()).unwrap();
    assert_eq!(groups.len(), 2);
    assert!(groups[0].is_empty() && groups[1].is_empty());
}
