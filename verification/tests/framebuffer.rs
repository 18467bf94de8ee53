use malen::gl::framebuffer::{
    framebuffer_layout, layout_sources_are_valid, mip_level_extent, AttachmentSource,
    TextureAttachment,
};
use malen::gl::NewFramebufferError;

fn source(is_depth: bool, mipmap_level: u32) -> AttachmentSource {
    AttachmentSource { is_depth, width: 100, height: 37, mipmap_level }
}

#[test]
fn framebuffer_layout_colors_then_depth() {
    let textures = vec![source(false, 0), source(true, 0), source(false, 1), source(false, 2)];
    let layout = framebuffer_layout(&textures, 8).unwrap();
    assert_eq!(
        layout.texture_attachments,
        vec![
            TextureAttachment { texture: 0, attachment: glow::COLOR_ATTACHMENT0, mipmap_level: 0 },
            TextureAttachment {
                texture: 2,
                attachment: glow::COLOR_ATTACHMENT0 + 1,
                mipmap_level: 1
            },
            TextureAttachment {
                texture: 3,
                attachment: glow::COLOR_ATTACHMENT0 + 2,
                mipmap_level: 2
            },
            TextureAttachment { texture: 1, attachment: glow::DEPTH_ATTACHMENT, mipmap_level: 0 },
        ]
    );
    assert_eq!(
        layout.draw_buffers,
        vec![glow::COLOR_ATTACHMENT0, glow::COLOR_ATTACHMENT0 + 1, glow::COLOR_ATTACHMENT0 + 2]
    );
    assert_eq!(
        layout.attachments,
        vec![
            glow::COLOR_ATTACHMENT0,
            glow::COLOR_ATTACHMENT0 + 1,
            glow::COLOR_ATTACHMENT0 + 2,
            glow::DEPTH_ATTACHMENT
        ]
    );
    assert_eq!(layout.sizes, vec![(100, 37), (100, 37), (50, 18), (25, 9)]);
}

#[test]
fn framebuffer_layout_too_many_color_attachments() {
    let textures = vec![source(false, 0), source(false, 0), source(true, 0)];
    match framebuffer_layout(&textures, 1) {
        Err(NewFramebufferError::TooManyColorAttachments(n, max)) => assert_eq!((n, max), (2, 1)),
        other => panic!("unexpected {:?}", other.map(|l| l.attachments)),
    }
    assert!(framebuffer_layout(&textures, 2).is_ok());
}

#[test]
fn framebuffer_depth_only() {
    let layout = framebuffer_layout(&vec![source(true, 0)], 0).unwrap();
    assert!(layout.draw_buffers.is_empty());
    assert_eq!(layout.attachments, vec![glow::DEPTH_ATTACHMENT]);
}

#[test]
fn mip_extents_never_below_one() {
    assert_eq!(mip_level_extent(1024, 0), 1024);
    assert_eq!(mip_level_extent(1024, 3), 128);
    assert_eq!(mip_level_extent(5, 1), 2);
    assert_eq!(mip_level_extent(5, 3), 1);
    assert_eq!(mip_level_extent(0, 0), 1);
    assert_eq!(mip_level_extent(u32::MAX, 31), 1);
}

#[test]
fn every_texture_attached_once_at_its_own_point() {
    let textures = vec![
        source(true, 0),
        source(false, 0),
        source(false, 3),
        source(false, 1),
        source(false, 0),
    ];
    let layout = framebuffer_layout(&textures, 4).unwrap();
    let mut seen: Vec<usize> = layout.texture_attachments.iter().map(|a| a.texture).collect();
    seen.sort();
    assert_eq!(seen, vec![0, 1, 2, 3, 4]);
    let mut points = layout.attachments.clone();
    points.sort();
    points.dedup();
    assert_eq!(points.len(), textures.len());
    assert_eq!(layout.texture_attachments.last().unwrap().attachment, glow::DEPTH_ATTACHMENT);
}

#[test]
fn layout_sources_checked() {
    assert!(layout_sources_are_valid(&vec![source(false, 0), source(true, 2)]));
    assert!(!layout_sources_are_valid(&vec![]));
    assert!(!layout_sources_are_valid(&vec![source(true, 0), source(true, 0)]));
    let other_size = AttachmentSource { is_depth: false, width: 10, height: 37, mipmap_level: 0 };
    assert!(!layout_sources_are_valid(&vec![source(false, 0), other_size]));
    assert!(!layout_sources_are_valid(&vec![source(false, 32)]));
}
