//! The attachment layout of framebuffers.
//!
//! A framebuffer is built from a list of textures. Color textures are
//! attached, in the order they are given, to consecutive color attachment
//! points starting at `COLOR_ATTACHMENT0`; a depth texture, of which there
//! can be at most one, is attached to `DEPTH_ATTACHMENT` after all color
//! textures. [`framebuffer_layout`] computes this plan from plain values,
//! so that the GL calls only have to carry it out.

use vstd::prelude::*;
use vstd::arithmetic::power2::pow2;

use super::consts;
use super::{Error, NewTextureError};

verus! {

/// Why a framebuffer could not be created.
#[derive(Debug)]
pub enum NewFramebufferError {
    OpenGL(Error),
    /// The number of requested color attachments (first) exceeds the GL's
    /// maximum number of color attachments (second).
    TooManyColorAttachments(usize, u32),
    Texture(NewTextureError),
}

/// What a framebuffer needs to know of one of its textures.
#[derive(Debug, Clone, Copy, PartialEq, Eq, Structural)]
pub struct AttachmentSource {
    /// Whether the texture holds depth values.
    pub is_depth: bool,
    pub width: u32,
    pub height: u32,
    /// The mipmap level of the texture that is attached.
    pub mipmap_level: u32,
}

/// One attachment of a texture level to an attachment point.
#[derive(Debug, Clone, Copy, PartialEq, Eq, Structural)]
pub struct TextureAttachment {
    /// The position of the texture in the list it was given in.
    pub texture: usize,
    /// The attachment point.
    pub attachment: u32,
    pub mipmap_level: i32,
}

/// The plan for creating a framebuffer.
#[derive(Debug, Clone)]
pub struct FramebufferLayout {
    /// The attachments, in the order in which they are made.
    pub texture_attachments: Vec<TextureAttachment>,
    /// The color attachment points that fragment outputs are written to.
    pub draw_buffers: Vec<u32>,
    /// All attachment points of the framebuffer.
    pub attachments: Vec<u32>,
    /// The extent of the attached level of each texture, in the order the
    /// textures were given.
    pub sizes: Vec<(u32, u32)>,
}

/// The positions of the color textures, in order.
pub open spec fn color_indices(s: Seq<AttachmentSource>) -> Seq<usize>
    decreases s.len(),
{
    if s.len() == 0 {
        seq![]
    } else if s.last().is_depth {
        color_indices(s.drop_last())
    } else {
        color_indices(s.drop_last()).push((s.len() - 1) as usize)
    }
}

/// The positions of the depth textures, in order.
pub open spec fn depth_indices(s: Seq<AttachmentSource>) -> Seq<usize>
    decreases s.len(),
{
    if s.len() == 0 {
        seq![]
    } else if s.last().is_depth {
        depth_indices(s.drop_last()).push((s.len() - 1) as usize)
    } else {
        depth_indices(s.drop_last())
    }
}

/// The extent of mipmap level `level` of a texture whose base extent is
/// `extent`: halved once per level, but never below one.
pub open spec fn mip_extent(extent: u32, level: u32) -> u32 {
    let q = extent as nat / pow2(level as nat);
    if q == 0 {
        1
    } else {
        q as u32
    }
}

/// The color attachment point of the color texture at position `location`
/// among the color textures.
pub open spec fn color_attachment(location: int) -> u32 {
    (consts::COLOR_ATTACHMENT0 + location) as u32
}

/// What [`framebuffer_layout`] demands of its textures: at least one
/// texture, at most one depth texture, all of the same extent, mipmap levels
/// below 32, and few enough textures for their attachment points to be
/// numbered.
pub open spec fn layout_sources_valid(s: Seq<AttachmentSource>) -> bool {
    &&& s.len() > 0
    &&& depth_indices(s).len() <= 1
    &&& forall|i: int|
        0 <= i < s.len() ==> #[trigger] s[i].width == s[0].width && s[i].height == s[0].height
    &&& forall|i: int| 0 <= i < s.len() ==> #[trigger] s[i].mipmap_level < 32
    &&& s.len() + consts::COLOR_ATTACHMENT0 <= u32::MAX
}

/// The attachments that a layout makes: the color textures in order at
/// consecutive color attachment points, then the depth texture, if any.
pub open spec fn layout_texture_attachments(s: Seq<AttachmentSource>) -> Seq<TextureAttachment> {
    let colors = color_indices(s);
    let depths = depth_indices(s);
    Seq::new(
        colors.len(),
        |l: int|
            TextureAttachment {
                texture: colors[l],
                attachment: color_attachment(l),
                mipmap_level: s[colors[l] as int].mipmap_level as i32,
            },
    ) + Seq::new(
        depths.len(),
        |l: int|
            TextureAttachment {
                texture: depths[l],
                attachment: consts::DEPTH_ATTACHMENT,
                mipmap_level: s[depths[l] as int].mipmap_level as i32,
            },
    )
}

proof fn lemma_indices_in_range(s: Seq<AttachmentSource>)
    requires
        s.len() <= usize::MAX,
    ensures
        forall|l: int|
            0 <= l < color_indices(s).len() ==> 0 <= #[trigger] color_indices(s)[l] < s.len()
                && !s[color_indices(s)[l] as int].is_depth,
        forall|l: int|
            0 <= l < depth_indices(s).len() ==> 0 <= #[trigger] depth_indices(s)[l] < s.len()
                && s[depth_indices(s)[l] as int].is_depth,
        color_indices(s).len() + depth_indices(s).len() == s.len(),
    decreases s.len(),
{
    if s.len() > 0 {
        let p = s.drop_last();
        lemma_indices_in_range(p);
        assert forall|l: int| 0 <= l < color_indices(s).len() implies 0 <= #[trigger] color_indices(
            s,
        )[l] < s.len() && !s[color_indices(s)[l] as int].is_depth by {
            if l < color_indices(p).len() {
                assert(color_indices(s)[l] == color_indices(p)[l]);
                assert(s[color_indices(p)[l] as int] == p[color_indices(p)[l] as int]);
            } else {
                assert(!s.last().is_depth);
                assert(color_indices(s)[l] == (s.len() - 1) as usize);
            }
        }
        assert forall|l: int| 0 <= l < depth_indices(s).len() implies 0 <= #[trigger] depth_indices(
            s,
        )[l] < s.len() && s[depth_indices(s)[l] as int].is_depth by {
            if l < depth_indices(p).len() {
                assert(depth_indices(s)[l] == depth_indices(p)[l]);
                assert(s[depth_indices(p)[l] as int] == p[depth_indices(p)[l] as int]);
            } else {
                assert(s.last().is_depth);
                assert(depth_indices(s)[l] == (s.len() - 1) as usize);
            }
        }
    }
}

proof fn lemma_indices_step(s: Seq<AttachmentSource>, i: int)
    requires
        0 <= i < s.len(),
        s.len() <= usize::MAX,
    ensures
        color_indices(s.take(i + 1)) == (if s[i].is_depth {
            color_indices(s.take(i))
        } else {
            color_indices(s.take(i)).push(i as usize)
        }),
        depth_indices(s.take(i + 1)) == (if s[i].is_depth {
            depth_indices(s.take(i)).push(i as usize)
        } else {
            depth_indices(s.take(i))
        }),
{
    assert(s.take(i + 1).drop_last() =~= s.take(i));
}

proof fn lemma_indices_increasing(s: Seq<AttachmentSource>)
    requires
        s.len() <= usize::MAX,
    ensures
        forall|a: int, b: int|
            0 <= a < b < color_indices(s).len() ==> #[trigger] color_indices(s)[a]
                < #[trigger] color_indices(s)[b],
        forall|a: int, b: int|
            0 <= a < b < depth_indices(s).len() ==> #[trigger] depth_indices(s)[a]
                < #[trigger] depth_indices(s)[b],
    decreases s.len(),
{
    if s.len() > 0 {
        let p = s.drop_last();
        lemma_indices_increasing(p);
        lemma_indices_in_range(p);
        assert forall|a: int, b: int| 0 <= a < b < color_indices(s).len() implies #[trigger] color_indices(s)[a]
            < #[trigger] color_indices(s)[b] by {
            assert(color_indices(s)[a] == color_indices(p)[a]);
            if b < color_indices(p).len() {
                assert(color_indices(s)[b] == color_indices(p)[b]);
            }
        }
        assert forall|a: int, b: int| 0 <= a < b < depth_indices(s).len() implies #[trigger] depth_indices(s)[a]
            < #[trigger] depth_indices(s)[b] by {
            assert(depth_indices(s)[a] == depth_indices(p)[a]);
            if b < depth_indices(p).len() {
                assert(depth_indices(s)[b] == depth_indices(p)[b]);
            }
        }
    }
}

/// Every texture of a valid list is attached exactly once: the attachments
/// name each position of the list, and no position twice.
pub proof fn lemma_each_texture_attached_once(s: Seq<AttachmentSource>)
    requires
        layout_sources_valid(s),
    ensures
        layout_texture_attachments(s).len() == s.len(),
        forall|i: int|
            0 <= i < s.len() ==> #[trigger] layout_texture_attachments(s)[i].texture < s.len(),
        forall|a: int, b: int|
            0 <= a < b < s.len() ==> #[trigger] layout_texture_attachments(s)[a].texture
                != #[trigger] layout_texture_attachments(s)[b].texture,
{
    lemma_indices_in_range(s);
    lemma_indices_increasing(s);
    let t = layout_texture_attachments(s);
    let c = color_indices(s).len();
    assert forall|i: int| 0 <= i < s.len() implies #[trigger] t[i].texture < s.len() by {
        if i < c {
            assert(t[i].texture == color_indices(s)[i]);
        } else {
            assert(t[i].texture == depth_indices(s)[i - c]);
        }
    }
    assert forall|a: int, b: int| 0 <= a < b < s.len() implies #[trigger] t[a].texture
        != #[trigger] t[b].texture by {
        if b < c {
            assert(t[a].texture == color_indices(s)[a]);
            assert(t[b].texture == color_indices(s)[b]);
        } else if a >= c {
            assert(t[a].texture == depth_indices(s)[a - c]);
            assert(t[b].texture == depth_indices(s)[b - c]);
        } else {
            assert(t[a].texture == color_indices(s)[a]);
            assert(t[b].texture == depth_indices(s)[b - c]);
            assert(!s[color_indices(s)[a] as int].is_depth);
            assert(s[depth_indices(s)[b - c] as int].is_depth);
        }
    }
}

/// The attachment points of a layout are distinct, unless a depth texture
/// comes with so many color textures that the color attachment points reach
/// the depth attachment point.
pub proof fn lemma_attachment_points_distinct(s: Seq<AttachmentSource>)
    requires
        layout_sources_valid(s),
        depth_indices(s).len() == 0 || color_indices(s).len() <= consts::DEPTH_ATTACHMENT
            - consts::COLOR_ATTACHMENT0,
    ensures
        forall|a: int, b: int|
            0 <= a < b < layout_texture_attachments(s).len() ==> #[trigger] layout_texture_attachments(s)[a].attachment
                != #[trigger] layout_texture_attachments(s)[b].attachment,
{
    lemma_indices_in_range(s);
    let t = layout_texture_attachments(s);
    let c = color_indices(s).len();
    assert forall|a: int, b: int| 0 <= a < b < t.len() implies #[trigger] t[a].attachment
        != #[trigger] t[b].attachment by {
        if b < c {
            assert(t[a].attachment == color_attachment(a));
            assert(t[b].attachment == color_attachment(b));
        } else if a >= c {
            assert(depth_indices(s).len() <= 1);
        } else {
            assert(t[a].attachment == color_attachment(a));
            assert(t[b].attachment == consts::DEPTH_ATTACHMENT);
        }
    }
}

/// Checks what [`framebuffer_layout`] demands of its textures.
pub fn layout_sources_are_valid(textures: &Vec<AttachmentSource>) -> (r: bool)
    ensures
        r == layout_sources_valid(textures@),
{
    let ghost s = textures@;
    let n = textures.len();
    if n == 0 {
        return false;
    }
    if n > (u32::MAX - consts::COLOR_ATTACHMENT0) as usize {
        return false;
    }
    let width = textures[0].width;
    let height = textures[0].height;
    let mut num_depth: usize = 0;
    let mut i: usize = 0;
    while i < n
        invariant
            s == textures@,
            n == s.len(),
            n > 0,
            i <= n,
            width == s[0].width,
            height == s[0].height,
            num_depth == depth_indices(s.take(i as int)).len(),
            num_depth <= i,
            forall|j: int|
                #![trigger s[j]]
                0 <= j < i ==> s[j].width == width && s[j].height == height && s[j].mipmap_level
                    < 32,
        decreases n - i,
    {
        proof {
            lemma_indices_step(s, i as int);
        }
        let t = textures[i];
        assert(s[i as int] == t);
        if t.width != width || t.height != height || t.mipmap_level >= 32 {
            assert(!(s[i as int].width == s[0].width && s[i as int].height == s[0].height
                && s[i as int].mipmap_level < 32));
            return false;
        }
        if t.is_depth {
            num_depth += 1;
        }
        assert(s[i as int].width == width && s[i as int].height == height
            && s[i as int].mipmap_level < 32);
        i += 1;
    }
    assert(s.take(n as int) =~= s);
    assert(num_depth == depth_indices(s).len());
    assert forall|j: int| 0 <= j < n implies #[trigger] s[j].width == s[0].width && s[j].height
        == s[0].height && s[j].mipmap_level < 32 by {
        assert(s[j].width == width);
    }
    num_depth <= 1
}

/// Plans the attachments of a framebuffer over the given textures.
///
/// `max_color_attachments` is the GL's maximum number of color attachments.
/// Fails with `TooManyColorAttachments(n, max_color_attachments)` exactly
/// when the number `n` of color textures exceeds it.
pub fn framebuffer_layout(textures: &Vec<AttachmentSource>, max_color_attachments: u32) -> (r:
    Result<FramebufferLayout, NewFramebufferError>)
    requires
        layout_sources_valid(textures@),
    ensures
        r is Err <==> color_indices(textures@).len() > max_color_attachments,
        r matches Err(e) ==> e == NewFramebufferError::TooManyColorAttachments(
            color_indices(textures@).len() as usize,
            max_color_attachments,
        ),
        r matches Ok(layout) ==> {
            &&& layout.texture_attachments@ == layout_texture_attachments(textures@)
            &&& layout.draw_buffers@ == Seq::new(
                color_indices(textures@).len(),
                |l: int| color_attachment(l),
            )
            &&& layout.attachments@ == layout.texture_attachments@.map_values(
                |a: TextureAttachment| a.attachment,
            )
            &&& layout.sizes@ == textures@.map_values(
                |t: AttachmentSource|
                    (mip_extent(t.width, t.mipmap_level), mip_extent(t.height, t.mipmap_level)),
            )
        },
{
    let ghost s = textures@;
    let n = textures.len();
    let mut colors: Vec<usize> = Vec::new();
    let mut depths: Vec<usize> = Vec::new();
    let mut i: usize = 0;
    while i < n
        invariant
            n == s.len(),
            s == textures@,
            i <= n,
            colors@ == color_indices(s.take(i as int)),
            depths@ == depth_indices(s.take(i as int)),
        decreases n - i,
    {
        proof {
            lemma_indices_step(s, i as int);
        }
        if textures[i].is_depth {
            depths.push(i);
        } else {
            colors.push(i);
        }
        i += 1;
    }
    assert(s.take(n as int) =~= s);
    proof {
        lemma_indices_in_range(s);
    }
    let num_color = colors.len();
    if num_color > max_color_attachments as usize {
        return Err(NewFramebufferError::TooManyColorAttachments(num_color, max_color_attachments));
    }
    let mut texture_attachments: Vec<TextureAttachment> = Vec::new();
    let mut draw_buffers: Vec<u32> = Vec::new();
    let mut attachments: Vec<u32> = Vec::new();
    let ghost spec_attachments = layout_texture_attachments(s);
    let mut location: usize = 0;
    while location < num_color
        invariant
            s == textures@,
            n == s.len(),
            layout_sources_valid(s),
            colors@ == color_indices(s),
            depths@ == depth_indices(s),
            num_color == colors@.len(),
            num_color <= n,
            spec_attachments == layout_texture_attachments(s),
            location <= num_color,
            texture_attachments@ == spec_attachments.take(location as int),
            draw_buffers@ == Seq::new(location as nat, |l: int| color_attachment(l)),
            attachments@ == texture_attachments@.map_values(|a: TextureAttachment| a.attachment),
            forall|l: int|
                0 <= l < color_indices(s).len() ==> 0 <= #[trigger] color_indices(s)[l] < s.len(),
        decreases num_color - location,
    {
        let index = colors[location];
        let attachment = consts::COLOR_ATTACHMENT0 + location as u32;
        let level = textures[index].mipmap_level as i32;
        let a = TextureAttachment { texture: index, attachment, mipmap_level: level };
        texture_attachments.push(a);
        draw_buffers.push(attachment);
        attachments.push(attachment);
        proof {
            assert(spec_attachments[location as int] == a);
            assert(texture_attachments@ =~= spec_attachments.take(location + 1));
            assert(draw_buffers@ =~= Seq::new((location + 1) as nat, |l: int| color_attachment(l)));
            assert(attachments@ =~= texture_attachments@.map_values(
                |a: TextureAttachment| a.attachment,
            ));
        }
        location += 1;
    }
    let mut d: usize = 0;
    while d < depths.len()
        invariant
            s == textures@,
            n == s.len(),
            layout_sources_valid(s),
            colors@ == color_indices(s),
            depths@ == depth_indices(s),
            num_color == colors@.len(),
            spec_attachments == layout_texture_attachments(s),
            num_color + depths@.len() == n,
            d <= depths@.len(),
            texture_attachments@ == spec_attachments.take(num_color + d),
            draw_buffers@ == Seq::new(num_color as nat, |l: int| color_attachment(l)),
            attachments@ == texture_attachments@.map_values(|a: TextureAttachment| a.attachment),
            forall|l: int|
                0 <= l < depth_indices(s).len() ==> 0 <= #[trigger] depth_indices(s)[l] < s.len(),
        decreases depths@.len() - d,
    {
        let index = depths[d];
        let a = TextureAttachment {
            texture: index,
            attachment: consts::DEPTH_ATTACHMENT,
            mipmap_level: textures[index].mipmap_level as i32,
        };
        texture_attachments.push(a);
        attachments.push(consts::DEPTH_ATTACHMENT);
        proof {
            assert(spec_attachments[num_color + d] == a);
            assert(texture_attachments@ =~= spec_attachments.take(num_color + d + 1));
            assert(attachments@ =~= texture_attachments@.map_values(
                |a: TextureAttachment| a.attachment,
            ));
        }
        d += 1;
    }
    assert(texture_attachments@ =~= spec_attachments);
    let mut sizes: Vec<(u32, u32)> = Vec::new();
    let mut k: usize = 0;
    while k < n
        invariant
            s == textures@,
            n == s.len(),
            layout_sources_valid(s),
            k <= n,
            sizes@ == s.take(k as int).map_values(
                |t: AttachmentSource|
                    (mip_extent(t.width, t.mipmap_level), mip_extent(t.height, t.mipmap_level)),
            ),
        decreases n - k,
    {
        let t = textures[k];
        let size = (mip_level_extent(t.width, t.mipmap_level), mip_level_extent(t.height, t.mipmap_level));
        sizes.push(size);
        assert(sizes@ =~= s.take(k + 1).map_values(
            |t: AttachmentSource|
                (mip_extent(t.width, t.mipmap_level), mip_extent(t.height, t.mipmap_level)),
        ));
        k += 1;
    }
    assert(s.take(n as int) =~= s);
    Ok(FramebufferLayout { texture_attachments, draw_buffers, attachments, sizes })
}

/// The extent of mipmap level `level` of a texture whose base extent is
/// `extent`.
pub fn mip_level_extent(extent: u32, level: u32) -> (r: u32)
    requires
        level < 32,
    ensures
        r == mip_extent(extent, level),
{
    let q = extent >> level;
    proof {
        vstd::bits::lemma_u32_shr_is_div(extent, level);
    }
    if q == 0 {
        1
    } else {
        q
    }
}

} // verus!
