//! The whole file: the `MDLX` magic tag, then tag-prefixed chunks in any
//! order on read, and in the format's fixed order on write.

use crate::codec::{
    add_sat, lemma_join, lemma_sat_add, lemma_split, lemma_u32_bytes, read_u32, sat, u32_at,
    u32_bytes, write_u32,
};
use crate::consts::{
    ATCH_TAG, BONE_TAG, CAMS_TAG, CLID_TAG, EVTS_TAG, GEOA_TAG, GEOS_TAG, GLBS_TAG, HELP_TAG,
    LITE_TAG, MDLX_TAG, MODL_TAG, MTLS_TAG, PIVT_TAG, PRE2_TAG, PREM_TAG, RIBB_TAG, SEQS_TAG,
    TEXS_TAG, TXAN_TAG, VERS_TAG,
};
use crate::error::FormatError;
use crate::record::{opt_model, BytesTotalSize, Chunk, Record};
use crate::version_chunk::{VersionChunk, VersionChunkModel};
use crate::model_chunk::{ModelChunk, ModelChunkModel};
use crate::sequence_chunk::{SequenceChunk, SequenceChunkModel};
use crate::global_sequence_chunk::{GlobalSequenceChunk, GlobalSequenceChunkModel};
use crate::texture_chunk::{TextureChunk, TextureChunkModel};
use crate::texture_animation_chunk::{TextureAnimationChunk, TextureAnimationChunkModel};
use crate::geoset_chunk::{GeosetChunk, GeosetChunkModel};
use crate::geoset_animation_chunk::{GeosetAnimationChunk, GeosetAnimationChunkModel};
use crate::bone_chunk::{BoneChunk, BoneChunkModel};
use crate::light_chunk::{LightChunk, LightChunkModel};
use crate::helper_chunk::{HelperChunk, HelperChunkModel};
use crate::attachment_chunk::{AttachmentChunk, AttachmentChunkModel};
use crate::pivot_point_chunk::{PivotPointChunk, PivotPointChunkModel};
use crate::raw_chunks::{
    CollisionShapeChunk, CollisionShapeChunkModel, EventObjectChunk, EventObjectChunkModel,
    MaterialChunk, MaterialChunkModel, ParticleEmitter2Chunk, ParticleEmitter2ChunkModel,
    ParticleEmitterChunk, ParticleEmitterChunkModel, RibbonEmitterChunk, RibbonEmitterChunkModel,
};
use crate::camera_chunk::{CameraChunk, CameraChunkModel};
use vstd::prelude::*;

verus! {

broadcast use vstd::seq::group_seq_axioms;

/// A decoded MDX file: at most one chunk of each kind.
#[derive(PartialEq, Debug)]
pub struct MDLXModel {
    pub version_chunk: Option<VersionChunk>,
    pub model_chunk: Option<ModelChunk>,
    pub sequence_chunk: Option<SequenceChunk>,
    pub global_sequence_chunk: Option<GlobalSequenceChunk>,
    pub texture_chunk: Option<TextureChunk>,
    pub texture_animation_chunk: Option<TextureAnimationChunk>,
    pub geoset_chunk: Option<GeosetChunk>,
    pub geoset_animation_chunk: Option<GeosetAnimationChunk>,
    pub bone_chunk: Option<BoneChunk>,
    pub light_chunk: Option<LightChunk>,
    pub helper_chunk: Option<HelperChunk>,
    pub attachment_chunk: Option<AttachmentChunk>,
    pub pivot_point_chunk: Option<PivotPointChunk>,
    pub particle_emitter_chunk: Option<ParticleEmitterChunk>,
    pub particle_emitter2_chunk: Option<ParticleEmitter2Chunk>,
    pub ribbon_emitter_chunk: Option<RibbonEmitterChunk>,
    pub event_object_chunk: Option<EventObjectChunk>,
    pub camera_chunk: Option<CameraChunk>,
    pub collision_shape_chunk: Option<CollisionShapeChunk>,
    pub material_chunk: Option<MaterialChunk>,
}

/// The mathematical content of an `MDLXModel`.
pub struct MDLXContents {
    pub version_chunk: Option<VersionChunkModel>,
    pub model_chunk: Option<ModelChunkModel>,
    pub sequence_chunk: Option<SequenceChunkModel>,
    pub global_sequence_chunk: Option<GlobalSequenceChunkModel>,
    pub texture_chunk: Option<TextureChunkModel>,
    pub texture_animation_chunk: Option<TextureAnimationChunkModel>,
    pub geoset_chunk: Option<GeosetChunkModel>,
    pub geoset_animation_chunk: Option<GeosetAnimationChunkModel>,
    pub bone_chunk: Option<BoneChunkModel>,
    pub light_chunk: Option<LightChunkModel>,
    pub helper_chunk: Option<HelperChunkModel>,
    pub attachment_chunk: Option<AttachmentChunkModel>,
    pub pivot_point_chunk: Option<PivotPointChunkModel>,
    pub particle_emitter_chunk: Option<ParticleEmitterChunkModel>,
    pub particle_emitter2_chunk: Option<ParticleEmitter2ChunkModel>,
    pub ribbon_emitter_chunk: Option<RibbonEmitterChunkModel>,
    pub event_object_chunk: Option<EventObjectChunkModel>,
    pub camera_chunk: Option<CameraChunkModel>,
    pub collision_shape_chunk: Option<CollisionShapeChunkModel>,
    pub material_chunk: Option<MaterialChunkModel>,
}

impl View for MDLXModel {
    type V = MDLXContents;

    open spec fn view(&self) -> MDLXContents {
        MDLXContents {
            version_chunk: opt_model(self.version_chunk),
            model_chunk: opt_model(self.model_chunk),
            sequence_chunk: opt_model(self.sequence_chunk),
            global_sequence_chunk: opt_model(self.global_sequence_chunk),
            texture_chunk: opt_model(self.texture_chunk),
            texture_animation_chunk: opt_model(self.texture_animation_chunk),
            geoset_chunk: opt_model(self.geoset_chunk),
            geoset_animation_chunk: opt_model(self.geoset_animation_chunk),
            bone_chunk: opt_model(self.bone_chunk),
            light_chunk: opt_model(self.light_chunk),
            helper_chunk: opt_model(self.helper_chunk),
            attachment_chunk: opt_model(self.attachment_chunk),
            pivot_point_chunk: opt_model(self.pivot_point_chunk),
            particle_emitter_chunk: opt_model(self.particle_emitter_chunk),
            particle_emitter2_chunk: opt_model(self.particle_emitter2_chunk),
            ribbon_emitter_chunk: opt_model(self.ribbon_emitter_chunk),
            event_object_chunk: opt_model(self.event_object_chunk),
            camera_chunk: opt_model(self.camera_chunk),
            collision_shape_chunk: opt_model(self.collision_shape_chunk),
            material_chunk: opt_model(self.material_chunk),
        }
    }
}

/// The model with no chunks.
pub open spec fn empty_contents() -> MDLXContents {
    MDLXContents {
        version_chunk: None,
        model_chunk: None,
        sequence_chunk: None,
        global_sequence_chunk: None,
        texture_chunk: None,
        texture_animation_chunk: None,
        geoset_chunk: None,
        geoset_animation_chunk: None,
        bone_chunk: None,
        light_chunk: None,
        helper_chunk: None,
        attachment_chunk: None,
        pivot_point_chunk: None,
        particle_emitter_chunk: None,
        particle_emitter2_chunk: None,
        ribbon_emitter_chunk: None,
        event_object_chunk: None,
        camera_chunk: None,
        collision_shape_chunk: None,
        material_chunk: None,
    }
}

/// An optional chunk on the wire: its tag, then the chunk, or nothing.
pub open spec fn chunk_block<T: Record>(tag: u32, o: Option<T::V>) -> Seq<u8> {
    match o {
        Some(c) => u32_bytes(tag) + T::model_bytes(c),
        None => Seq::empty(),
    }
}

#[verifier::opaque]
pub open spec fn chunk_encodable<T: Record>(o: Option<T::V>) -> bool {
    match o {
        Some(c) => T::encodable(c),
        None => true,
    }
}

/// The file that writing `m` produces: the magic tag, then the chunks present
/// in the format's fixed order.
pub open spec fn mdx_bytes(m: MDLXContents) -> Seq<u8> {
    u32_bytes(MDLX_TAG)
    + chunk_block::<VersionChunk>(VERS_TAG, m.version_chunk)
    + chunk_block::<ModelChunk>(MODL_TAG, m.model_chunk)
    + chunk_block::<SequenceChunk>(SEQS_TAG, m.sequence_chunk)
    + chunk_block::<GlobalSequenceChunk>(GLBS_TAG, m.global_sequence_chunk)
    + chunk_block::<TextureChunk>(TEXS_TAG, m.texture_chunk)
    + chunk_block::<TextureAnimationChunk>(TXAN_TAG, m.texture_animation_chunk)
    + chunk_block::<GeosetChunk>(GEOS_TAG, m.geoset_chunk)
    + chunk_block::<GeosetAnimationChunk>(GEOA_TAG, m.geoset_animation_chunk)
    + chunk_block::<BoneChunk>(BONE_TAG, m.bone_chunk)
    + chunk_block::<LightChunk>(LITE_TAG, m.light_chunk)
    + chunk_block::<HelperChunk>(HELP_TAG, m.helper_chunk)
    + chunk_block::<AttachmentChunk>(ATCH_TAG, m.attachment_chunk)
    + chunk_block::<PivotPointChunk>(PIVT_TAG, m.pivot_point_chunk)
    + chunk_block::<ParticleEmitterChunk>(PREM_TAG, m.particle_emitter_chunk)
    + chunk_block::<ParticleEmitter2Chunk>(PRE2_TAG, m.particle_emitter2_chunk)
    + chunk_block::<RibbonEmitterChunk>(RIBB_TAG, m.ribbon_emitter_chunk)
    + chunk_block::<EventObjectChunk>(EVTS_TAG, m.event_object_chunk)
    + chunk_block::<CameraChunk>(CAMS_TAG, m.camera_chunk)
    + chunk_block::<CollisionShapeChunk>(CLID_TAG, m.collision_shape_chunk)
    + chunk_block::<MaterialChunk>(MTLS_TAG, m.material_chunk)
}

pub open spec fn mdx_encodable(m: MDLXContents) -> bool {
    chunk_encodable::<VersionChunk>(m.version_chunk)
    && chunk_encodable::<ModelChunk>(m.model_chunk)
    && chunk_encodable::<SequenceChunk>(m.sequence_chunk)
    && chunk_encodable::<GlobalSequenceChunk>(m.global_sequence_chunk)
    && chunk_encodable::<TextureChunk>(m.texture_chunk)
    && chunk_encodable::<TextureAnimationChunk>(m.texture_animation_chunk)
    && chunk_encodable::<GeosetChunk>(m.geoset_chunk)
    && chunk_encodable::<GeosetAnimationChunk>(m.geoset_animation_chunk)
    && chunk_encodable::<BoneChunk>(m.bone_chunk)
    && chunk_encodable::<LightChunk>(m.light_chunk)
    && chunk_encodable::<HelperChunk>(m.helper_chunk)
    && chunk_encodable::<AttachmentChunk>(m.attachment_chunk)
    && chunk_encodable::<PivotPointChunk>(m.pivot_point_chunk)
    && chunk_encodable::<ParticleEmitterChunk>(m.particle_emitter_chunk)
    && chunk_encodable::<ParticleEmitter2Chunk>(m.particle_emitter2_chunk)
    && chunk_encodable::<RibbonEmitterChunk>(m.ribbon_emitter_chunk)
    && chunk_encodable::<EventObjectChunk>(m.event_object_chunk)
    && chunk_encodable::<CameraChunk>(m.camera_chunk)
    && chunk_encodable::<CollisionShapeChunk>(m.collision_shape_chunk)
    && chunk_encodable::<MaterialChunk>(m.material_chunk)
}

/// `m` with every record's and every chunk's declared size recomputed from its content.
pub open spec fn mdx_sized(m: MDLXContents) -> MDLXContents {
    MDLXContents {
        version_chunk: sized_opt::<VersionChunk>(m.version_chunk),
        model_chunk: sized_opt::<ModelChunk>(m.model_chunk),
        sequence_chunk: sized_opt::<SequenceChunk>(m.sequence_chunk),
        global_sequence_chunk: sized_opt::<GlobalSequenceChunk>(m.global_sequence_chunk),
        texture_chunk: sized_opt::<TextureChunk>(m.texture_chunk),
        texture_animation_chunk: sized_opt::<TextureAnimationChunk>(m.texture_animation_chunk),
        geoset_chunk: sized_opt::<GeosetChunk>(m.geoset_chunk),
        geoset_animation_chunk: sized_opt::<GeosetAnimationChunk>(m.geoset_animation_chunk),
        bone_chunk: sized_opt::<BoneChunk>(m.bone_chunk),
        light_chunk: sized_opt::<LightChunk>(m.light_chunk),
        helper_chunk: sized_opt::<HelperChunk>(m.helper_chunk),
        attachment_chunk: sized_opt::<AttachmentChunk>(m.attachment_chunk),
        pivot_point_chunk: sized_opt::<PivotPointChunk>(m.pivot_point_chunk),
        particle_emitter_chunk: sized_opt::<ParticleEmitterChunk>(m.particle_emitter_chunk),
        particle_emitter2_chunk: sized_opt::<ParticleEmitter2Chunk>(m.particle_emitter2_chunk),
        ribbon_emitter_chunk: sized_opt::<RibbonEmitterChunk>(m.ribbon_emitter_chunk),
        event_object_chunk: sized_opt::<EventObjectChunk>(m.event_object_chunk),
        camera_chunk: sized_opt::<CameraChunk>(m.camera_chunk),
        collision_shape_chunk: sized_opt::<CollisionShapeChunk>(m.collision_shape_chunk),
        material_chunk: sized_opt::<MaterialChunk>(m.material_chunk),
    }
}

/// Decoding the chunk of kind `tag` whose size field is at `pos` into `acc`;
/// a chunk of a kind already present replaces it.
pub open spec fn parse_chunk(b: Seq<u8>, pos: int, tag: u32, acc: MDLXContents) -> Result<
    (MDLXContents, int),
    FormatError,
> {
    if tag == VERS_TAG {
        match VersionChunk::parse(b, pos) {
            Err(e) => Err(e),
            Ok((c, p)) => Ok((MDLXContents {
                version_chunk: Some(c),
                model_chunk: acc.model_chunk,
                sequence_chunk: acc.sequence_chunk,
                global_sequence_chunk: acc.global_sequence_chunk,
                texture_chunk: acc.texture_chunk,
                texture_animation_chunk: acc.texture_animation_chunk,
                geoset_chunk: acc.geoset_chunk,
                geoset_animation_chunk: acc.geoset_animation_chunk,
                bone_chunk: acc.bone_chunk,
                light_chunk: acc.light_chunk,
                helper_chunk: acc.helper_chunk,
                attachment_chunk: acc.attachment_chunk,
                pivot_point_chunk: acc.pivot_point_chunk,
                particle_emitter_chunk: acc.particle_emitter_chunk,
                particle_emitter2_chunk: acc.particle_emitter2_chunk,
                ribbon_emitter_chunk: acc.ribbon_emitter_chunk,
                event_object_chunk: acc.event_object_chunk,
                camera_chunk: acc.camera_chunk,
                collision_shape_chunk: acc.collision_shape_chunk,
                material_chunk: acc.material_chunk,
            }, p)),
        }
    } else if tag == MODL_TAG {
        match ModelChunk::parse(b, pos) {
            Err(e) => Err(e),
            Ok((c, p)) => Ok((MDLXContents {
                version_chunk: acc.version_chunk,
                model_chunk: Some(c),
                sequence_chunk: acc.sequence_chunk,
                global_sequence_chunk: acc.global_sequence_chunk,
                texture_chunk: acc.texture_chunk,
                texture_animation_chunk: acc.texture_animation_chunk,
                geoset_chunk: acc.geoset_chunk,
                geoset_animation_chunk: acc.geoset_animation_chunk,
                bone_chunk: acc.bone_chunk,
                light_chunk: acc.light_chunk,
                helper_chunk: acc.helper_chunk,
                attachment_chunk: acc.attachment_chunk,
                pivot_point_chunk: acc.pivot_point_chunk,
                particle_emitter_chunk: acc.particle_emitter_chunk,
                particle_emitter2_chunk: acc.particle_emitter2_chunk,
                ribbon_emitter_chunk: acc.ribbon_emitter_chunk,
                event_object_chunk: acc.event_object_chunk,
                camera_chunk: acc.camera_chunk,
                collision_shape_chunk: acc.collision_shape_chunk,
                material_chunk: acc.material_chunk,
            }, p)),
        }
    } else if tag == SEQS_TAG {
        match SequenceChunk::parse(b, pos) {
            Err(e) => Err(e),
            Ok((c, p)) => Ok((MDLXContents {
                version_chunk: acc.version_chunk,
                model_chunk: acc.model_chunk,
                sequence_chunk: Some(c),
                global_sequence_chunk: acc.global_sequence_chunk,
                texture_chunk: acc.texture_chunk,
                texture_animation_chunk: acc.texture_animation_chunk,
                geoset_chunk: acc.geoset_chunk,
                geoset_animation_chunk: acc.geoset_animation_chunk,
                bone_chunk: acc.bone_chunk,
                light_chunk: acc.light_chunk,
                helper_chunk: acc.helper_chunk,
                attachment_chunk: acc.attachment_chunk,
                pivot_point_chunk: acc.pivot_point_chunk,
                particle_emitter_chunk: acc.particle_emitter_chunk,
                particle_emitter2_chunk: acc.particle_emitter2_chunk,
                ribbon_emitter_chunk: acc.ribbon_emitter_chunk,
                event_object_chunk: acc.event_object_chunk,
                camera_chunk: acc.camera_chunk,
                collision_shape_chunk: acc.collision_shape_chunk,
                material_chunk: acc.material_chunk,
            }, p)),
        }
    } else if tag == GLBS_TAG {
        match GlobalSequenceChunk::parse(b, pos) {
            Err(e) => Err(e),
            Ok((c, p)) => Ok((MDLXContents {
                version_chunk: acc.version_chunk,
                model_chunk: acc.model_chunk,
                sequence_chunk: acc.sequence_chunk,
                global_sequence_chunk: Some(c),
                texture_chunk: acc.texture_chunk,
                texture_animation_chunk: acc.texture_animation_chunk,
                geoset_chunk: acc.geoset_chunk,
                geoset_animation_chunk: acc.geoset_animation_chunk,
                bone_chunk: acc.bone_chunk,
                light_chunk: acc.light_chunk,
                helper_chunk: acc.helper_chunk,
                attachment_chunk: acc.attachment_chunk,
                pivot_point_chunk: acc.pivot_point_chunk,
                particle_emitter_chunk: acc.particle_emitter_chunk,
                particle_emitter2_chunk: acc.particle_emitter2_chunk,
                ribbon_emitter_chunk: acc.ribbon_emitter_chunk,
                event_object_chunk: acc.event_object_chunk,
                camera_chunk: acc.camera_chunk,
                collision_shape_chunk: acc.collision_shape_chunk,
                material_chunk: acc.material_chunk,
            }, p)),
        }
    } else if tag == TEXS_TAG {
        match TextureChunk::parse(b, pos) {
            Err(e) => Err(e),
            Ok((c, p)) => Ok((MDLXContents {
                version_chunk: acc.version_chunk,
                model_chunk: acc.model_chunk,
                sequence_chunk: acc.sequence_chunk,
                global_sequence_chunk: acc.global_sequence_chunk,
                texture_chunk: Some(c),
                texture_animation_chunk: acc.texture_animation_chunk,
                geoset_chunk: acc.geoset_chunk,
                geoset_animation_chunk: acc.geoset_animation_chunk,
                bone_chunk: acc.bone_chunk,
                light_chunk: acc.light_chunk,
                helper_chunk: acc.helper_chunk,
                attachment_chunk: acc.attachment_chunk,
                pivot_point_chunk: acc.pivot_point_chunk,
                particle_emitter_chunk: acc.particle_emitter_chunk,
                particle_emitter2_chunk: acc.particle_emitter2_chunk,
                ribbon_emitter_chunk: acc.ribbon_emitter_chunk,
                event_object_chunk: acc.event_object_chunk,
                camera_chunk: acc.camera_chunk,
                collision_shape_chunk: acc.collision_shape_chunk,
                material_chunk: acc.material_chunk,
            }, p)),
        }
    } else if tag == TXAN_TAG {
        match TextureAnimationChunk::parse(b, pos) {
            Err(e) => Err(e),
            Ok((c, p)) => Ok((MDLXContents {
                version_chunk: acc.version_chunk,
                model_chunk: acc.model_chunk,
                sequence_chunk: acc.sequence_chunk,
                global_sequence_chunk: acc.global_sequence_chunk,
                texture_chunk: acc.texture_chunk,
                texture_animation_chunk: Some(c),
                geoset_chunk: acc.geoset_chunk,
                geoset_animation_chunk: acc.geoset_animation_chunk,
                bone_chunk: acc.bone_chunk,
                light_chunk: acc.light_chunk,
                helper_chunk: acc.helper_chunk,
                attachment_chunk: acc.attachment_chunk,
                pivot_point_chunk: acc.pivot_point_chunk,
                particle_emitter_chunk: acc.particle_emitter_chunk,
                particle_emitter2_chunk: acc.particle_emitter2_chunk,
                ribbon_emitter_chunk: acc.ribbon_emitter_chunk,
                event_object_chunk: acc.event_object_chunk,
                camera_chunk: acc.camera_chunk,
                collision_shape_chunk: acc.collision_shape_chunk,
                material_chunk: acc.material_chunk,
            }, p)),
        }
    } else if tag == GEOS_TAG {
        match GeosetChunk::parse(b, pos) {
            Err(e) => Err(e),
            Ok((c, p)) => Ok((MDLXContents {
                version_chunk: acc.version_chunk,
                model_chunk: acc.model_chunk,
                sequence_chunk: acc.sequence_chunk,
                global_sequence_chunk: acc.global_sequence_chunk,
                texture_chunk: acc.texture_chunk,
                texture_animation_chunk: acc.texture_animation_chunk,
                geoset_chunk: Some(c),
                geoset_animation_chunk: acc.geoset_animation_chunk,
                bone_chunk: acc.bone_chunk,
                light_chunk: acc.light_chunk,
                helper_chunk: acc.helper_chunk,
                attachment_chunk: acc.attachment_chunk,
                pivot_point_chunk: acc.pivot_point_chunk,
                particle_emitter_chunk: acc.particle_emitter_chunk,
                particle_emitter2_chunk: acc.particle_emitter2_chunk,
                ribbon_emitter_chunk: acc.ribbon_emitter_chunk,
                event_object_chunk: acc.event_object_chunk,
                camera_chunk: acc.camera_chunk,
                collision_shape_chunk: acc.collision_shape_chunk,
                material_chunk: acc.material_chunk,
            }, p)),
        }
    } else if tag == GEOA_TAG {
        match GeosetAnimationChunk::parse(b, pos) {
            Err(e) => Err(e),
            Ok((c, p)) => Ok((MDLXContents {
                version_chunk: acc.version_chunk,
                model_chunk: acc.model_chunk,
                sequence_chunk: acc.sequence_chunk,
                global_sequence_chunk: acc.global_sequence_chunk,
                texture_chunk: acc.texture_chunk,
                texture_animation_chunk: acc.texture_animation_chunk,
                geoset_chunk: acc.geoset_chunk,
                geoset_animation_chunk: Some(c),
                bone_chunk: acc.bone_chunk,
                light_chunk: acc.light_chunk,
                helper_chunk: acc.helper_chunk,
                attachment_chunk: acc.attachment_chunk,
                pivot_point_chunk: acc.pivot_point_chunk,
                particle_emitter_chunk: acc.particle_emitter_chunk,
                particle_emitter2_chunk: acc.particle_emitter2_chunk,
                ribbon_emitter_chunk: acc.ribbon_emitter_chunk,
                event_object_chunk: acc.event_object_chunk,
                camera_chunk: acc.camera_chunk,
                collision_shape_chunk: acc.collision_shape_chunk,
                material_chunk: acc.material_chunk,
            }, p)),
        }
    } else if tag == BONE_TAG {
        match BoneChunk::parse(b, pos) {
            Err(e) => Err(e),
            Ok((c, p)) => Ok((MDLXContents {
                version_chunk: acc.version_chunk,
                model_chunk: acc.model_chunk,
                sequence_chunk: acc.sequence_chunk,
                global_sequence_chunk: acc.global_sequence_chunk,
                texture_chunk: acc.texture_chunk,
                texture_animation_chunk: acc.texture_animation_chunk,
                geoset_chunk: acc.geoset_chunk,
                geoset_animation_chunk: acc.geoset_animation_chunk,
                bone_chunk: Some(c),
                light_chunk: acc.light_chunk,
                helper_chunk: acc.helper_chunk,
                attachment_chunk: acc.attachment_chunk,
                pivot_point_chunk: acc.pivot_point_chunk,
                particle_emitter_chunk: acc.particle_emitter_chunk,
                particle_emitter2_chunk: acc.particle_emitter2_chunk,
                ribbon_emitter_chunk: acc.ribbon_emitter_chunk,
                event_object_chunk: acc.event_object_chunk,
                camera_chunk: acc.camera_chunk,
                collision_shape_chunk: acc.collision_shape_chunk,
                material_chunk: acc.material_chunk,
            }, p)),
        }
    } else if tag == LITE_TAG {
        match LightChunk::parse(b, pos) {
            Err(e) => Err(e),
            Ok((c, p)) => Ok((MDLXContents {
                version_chunk: acc.version_chunk,
                model_chunk: acc.model_chunk,
                sequence_chunk: acc.sequence_chunk,
                global_sequence_chunk: acc.global_sequence_chunk,
                texture_chunk: acc.texture_chunk,
                texture_animation_chunk: acc.texture_animation_chunk,
                geoset_chunk: acc.geoset_chunk,
                geoset_animation_chunk: acc.geoset_animation_chunk,
                bone_chunk: acc.bone_chunk,
                light_chunk: Some(c),
                helper_chunk: acc.helper_chunk,
                attachment_chunk: acc.attachment_chunk,
                pivot_point_chunk: acc.pivot_point_chunk,
                particle_emitter_chunk: acc.particle_emitter_chunk,
                particle_emitter2_chunk: acc.particle_emitter2_chunk,
                ribbon_emitter_chunk: acc.ribbon_emitter_chunk,
                event_object_chunk: acc.event_object_chunk,
                camera_chunk: acc.camera_chunk,
                collision_shape_chunk: acc.collision_shape_chunk,
                material_chunk: acc.material_chunk,
            }, p)),
        }
    } else if tag == HELP_TAG {
        match HelperChunk::parse(b, pos) {
            Err(e) => Err(e),
            Ok((c, p)) => Ok((MDLXContents {
                version_chunk: acc.version_chunk,
                model_chunk: acc.model_chunk,
                sequence_chunk: acc.sequence_chunk,
                global_sequence_chunk: acc.global_sequence_chunk,
                texture_chunk: acc.texture_chunk,
                texture_animation_chunk: acc.texture_animation_chunk,
                geoset_chunk: acc.geoset_chunk,
                geoset_animation_chunk: acc.geoset_animation_chunk,
                bone_chunk: acc.bone_chunk,
                light_chunk: acc.light_chunk,
                helper_chunk: Some(c),
                attachment_chunk: acc.attachment_chunk,
                pivot_point_chunk: acc.pivot_point_chunk,
                particle_emitter_chunk: acc.particle_emitter_chunk,
                particle_emitter2_chunk: acc.particle_emitter2_chunk,
                ribbon_emitter_chunk: acc.ribbon_emitter_chunk,
                event_object_chunk: acc.event_object_chunk,
                camera_chunk: acc.camera_chunk,
                collision_shape_chunk: acc.collision_shape_chunk,
                material_chunk: acc.material_chunk,
            }, p)),
        }
    } else if tag == ATCH_TAG {
        match AttachmentChunk::parse(b, pos) {
            Err(e) => Err(e),
            Ok((c, p)) => Ok((MDLXContents {
                version_chunk: acc.version_chunk,
                model_chunk: acc.model_chunk,
                sequence_chunk: acc.sequence_chunk,
                global_sequence_chunk: acc.global_sequence_chunk,
                texture_chunk: acc.texture_chunk,
                texture_animation_chunk: acc.texture_animation_chunk,
                geoset_chunk: acc.geoset_chunk,
                geoset_animation_chunk: acc.geoset_animation_chunk,
                bone_chunk: acc.bone_chunk,
                light_chunk: acc.light_chunk,
                helper_chunk: acc.helper_chunk,
                attachment_chunk: Some(c),
                pivot_point_chunk: acc.pivot_point_chunk,
                particle_emitter_chunk: acc.particle_emitter_chunk,
                particle_emitter2_chunk: acc.particle_emitter2_chunk,
                ribbon_emitter_chunk: acc.ribbon_emitter_chunk,
                event_object_chunk: acc.event_object_chunk,
                camera_chunk: acc.camera_chunk,
                collision_shape_chunk: acc.collision_shape_chunk,
                material_chunk: acc.material_chunk,
            }, p)),
        }
    } else if tag == PIVT_TAG {
        match PivotPointChunk::parse(b, pos) {
            Err(e) => Err(e),
            Ok((c, p)) => Ok((MDLXContents {
                version_chunk: acc.version_chunk,
                model_chunk: acc.model_chunk,
                sequence_chunk: acc.sequence_chunk,
                global_sequence_chunk: acc.global_sequence_chunk,
                texture_chunk: acc.texture_chunk,
                texture_animation_chunk: acc.texture_animation_chunk,
                geoset_chunk: acc.geoset_chunk,
                geoset_animation_chunk: acc.geoset_animation_chunk,
                bone_chunk: acc.bone_chunk,
                light_chunk: acc.light_chunk,
                helper_chunk: acc.helper_chunk,
                attachment_chunk: acc.attachment_chunk,
                pivot_point_chunk: Some(c),
                particle_emitter_chunk: acc.particle_emitter_chunk,
                particle_emitter2_chunk: acc.particle_emitter2_chunk,
                ribbon_emitter_chunk: acc.ribbon_emitter_chunk,
                event_object_chunk: acc.event_object_chunk,
                camera_chunk: acc.camera_chunk,
                collision_shape_chunk: acc.collision_shape_chunk,
                material_chunk: acc.material_chunk,
            }, p)),
        }
    } else if tag == PREM_TAG {
        match ParticleEmitterChunk::parse(b, pos) {
            Err(e) => Err(e),
            Ok((c, p)) => Ok((MDLXContents {
                version_chunk: acc.version_chunk,
                model_chunk: acc.model_chunk,
                sequence_chunk: acc.sequence_chunk,
                global_sequence_chunk: acc.global_sequence_chunk,
                texture_chunk: acc.texture_chunk,
                texture_animation_chunk: acc.texture_animation_chunk,
                geoset_chunk: acc.geoset_chunk,
                geoset_animation_chunk: acc.geoset_animation_chunk,
                bone_chunk: acc.bone_chunk,
                light_chunk: acc.light_chunk,
                helper_chunk: acc.helper_chunk,
                attachment_chunk: acc.attachment_chunk,
                pivot_point_chunk: acc.pivot_point_chunk,
                particle_emitter_chunk: Some(c),
                particle_emitter2_chunk: acc.particle_emitter2_chunk,
                ribbon_emitter_chunk: acc.ribbon_emitter_chunk,
                event_object_chunk: acc.event_object_chunk,
                camera_chunk: acc.camera_chunk,
                collision_shape_chunk: acc.collision_shape_chunk,
                material_chunk: acc.material_chunk,
            }, p)),
        }
    } else if tag == PRE2_TAG {
        match ParticleEmitter2Chunk::parse(b, pos) {
            Err(e) => Err(e),
            Ok((c, p)) => Ok((MDLXContents {
                version_chunk: acc.version_chunk,
                model_chunk: acc.model_chunk,
                sequence_chunk: acc.sequence_chunk,
                global_sequence_chunk: acc.global_sequence_chunk,
                texture_chunk: acc.texture_chunk,
                texture_animation_chunk: acc.texture_animation_chunk,
                geoset_chunk: acc.geoset_chunk,
                geoset_animation_chunk: acc.geoset_animation_chunk,
                bone_chunk: acc.bone_chunk,
                light_chunk: acc.light_chunk,
                helper_chunk: acc.helper_chunk,
                attachment_chunk: acc.attachment_chunk,
                pivot_point_chunk: acc.pivot_point_chunk,
                particle_emitter_chunk: acc.particle_emitter_chunk,
                particle_emitter2_chunk: Some(c),
                ribbon_emitter_chunk: acc.ribbon_emitter_chunk,
                event_object_chunk: acc.event_object_chunk,
                camera_chunk: acc.camera_chunk,
                collision_shape_chunk: acc.collision_shape_chunk,
                material_chunk: acc.material_chunk,
            }, p)),
        }
    } else if tag == RIBB_TAG {
        match RibbonEmitterChunk::parse(b, pos) {
            Err(e) => Err(e),
            Ok((c, p)) => Ok((MDLXContents {
                version_chunk: acc.version_chunk,
                model_chunk: acc.model_chunk,
                sequence_chunk: acc.sequence_chunk,
                global_sequence_chunk: acc.global_sequence_chunk,
                texture_chunk: acc.texture_chunk,
                texture_animation_chunk: acc.texture_animation_chunk,
                geoset_chunk: acc.geoset_chunk,
                geoset_animation_chunk: acc.geoset_animation_chunk,
                bone_chunk: acc.bone_chunk,
                light_chunk: acc.light_chunk,
                helper_chunk: acc.helper_chunk,
                attachment_chunk: acc.attachment_chunk,
                pivot_point_chunk: acc.pivot_point_chunk,
                particle_emitter_chunk: acc.particle_emitter_chunk,
                particle_emitter2_chunk: acc.particle_emitter2_chunk,
                ribbon_emitter_chunk: Some(c),
                event_object_chunk: acc.event_object_chunk,
                camera_chunk: acc.camera_chunk,
                collision_shape_chunk: acc.collision_shape_chunk,
                material_chunk: acc.material_chunk,
            }, p)),
        }
    } else if tag == EVTS_TAG {
        match EventObjectChunk::parse(b, pos) {
            Err(e) => Err(e),
            Ok((c, p)) => Ok((MDLXContents {
                version_chunk: acc.version_chunk,
                model_chunk: acc.model_chunk,
                sequence_chunk: acc.sequence_chunk,
                global_sequence_chunk: acc.global_sequence_chunk,
                texture_chunk: acc.texture_chunk,
                texture_animation_chunk: acc.texture_animation_chunk,
                geoset_chunk: acc.geoset_chunk,
                geoset_animation_chunk: acc.geoset_animation_chunk,
                bone_chunk: acc.bone_chunk,
                light_chunk: acc.light_chunk,
                helper_chunk: acc.helper_chunk,
                attachment_chunk: acc.attachment_chunk,
                pivot_point_chunk: acc.pivot_point_chunk,
                particle_emitter_chunk: acc.particle_emitter_chunk,
                particle_emitter2_chunk: acc.particle_emitter2_chunk,
                ribbon_emitter_chunk: acc.ribbon_emitter_chunk,
                event_object_chunk: Some(c),
                camera_chunk: acc.camera_chunk,
                collision_shape_chunk: acc.collision_shape_chunk,
                material_chunk: acc.material_chunk,
            }, p)),
        }
    } else if tag == CAMS_TAG {
        match CameraChunk::parse(b, pos) {
            Err(e) => Err(e),
            Ok((c, p)) => Ok((MDLXContents {
                version_chunk: acc.version_chunk,
                model_chunk: acc.model_chunk,
                sequence_chunk: acc.sequence_chunk,
                global_sequence_chunk: acc.global_sequence_chunk,
                texture_chunk: acc.texture_chunk,
                texture_animation_chunk: acc.texture_animation_chunk,
                geoset_chunk: acc.geoset_chunk,
                geoset_animation_chunk: acc.geoset_animation_chunk,
                bone_chunk: acc.bone_chunk,
                light_chunk: acc.light_chunk,
                helper_chunk: acc.helper_chunk,
                attachment_chunk: acc.attachment_chunk,
                pivot_point_chunk: acc.pivot_point_chunk,
                particle_emitter_chunk: acc.particle_emitter_chunk,
                particle_emitter2_chunk: acc.particle_emitter2_chunk,
                ribbon_emitter_chunk: acc.ribbon_emitter_chunk,
                event_object_chunk: acc.event_object_chunk,
                camera_chunk: Some(c),
                collision_shape_chunk: acc.collision_shape_chunk,
                material_chunk: acc.material_chunk,
            }, p)),
        }
    } else if tag == CLID_TAG {
        match CollisionShapeChunk::parse(b, pos) {
            Err(e) => Err(e),
            Ok((c, p)) => Ok((MDLXContents {
                version_chunk: acc.version_chunk,
                model_chunk: acc.model_chunk,
                sequence_chunk: acc.sequence_chunk,
                global_sequence_chunk: acc.global_sequence_chunk,
                texture_chunk: acc.texture_chunk,
                texture_animation_chunk: acc.texture_animation_chunk,
                geoset_chunk: acc.geoset_chunk,
                geoset_animation_chunk: acc.geoset_animation_chunk,
                bone_chunk: acc.bone_chunk,
                light_chunk: acc.light_chunk,
                helper_chunk: acc.helper_chunk,
                attachment_chunk: acc.attachment_chunk,
                pivot_point_chunk: acc.pivot_point_chunk,
                particle_emitter_chunk: acc.particle_emitter_chunk,
                particle_emitter2_chunk: acc.particle_emitter2_chunk,
                ribbon_emitter_chunk: acc.ribbon_emitter_chunk,
                event_object_chunk: acc.event_object_chunk,
                camera_chunk: acc.camera_chunk,
                collision_shape_chunk: Some(c),
                material_chunk: acc.material_chunk,
            }, p)),
        }
    } else if tag == MTLS_TAG {
        match MaterialChunk::parse(b, pos) {
            Err(e) => Err(e),
            Ok((c, p)) => Ok((MDLXContents {
                version_chunk: acc.version_chunk,
                model_chunk: acc.model_chunk,
                sequence_chunk: acc.sequence_chunk,
                global_sequence_chunk: acc.global_sequence_chunk,
                texture_chunk: acc.texture_chunk,
                texture_animation_chunk: acc.texture_animation_chunk,
                geoset_chunk: acc.geoset_chunk,
                geoset_animation_chunk: acc.geoset_animation_chunk,
                bone_chunk: acc.bone_chunk,
                light_chunk: acc.light_chunk,
                helper_chunk: acc.helper_chunk,
                attachment_chunk: acc.attachment_chunk,
                pivot_point_chunk: acc.pivot_point_chunk,
                particle_emitter_chunk: acc.particle_emitter_chunk,
                particle_emitter2_chunk: acc.particle_emitter2_chunk,
                ribbon_emitter_chunk: acc.ribbon_emitter_chunk,
                event_object_chunk: acc.event_object_chunk,
                camera_chunk: acc.camera_chunk,
                collision_shape_chunk: acc.collision_shape_chunk,
                material_chunk: Some(c),
            }, p)),
        }
    } else {
        Err(FormatError::UnknownChunkTag(tag))
    }
}

/// Decoding tag-prefixed chunks from `pos` to the end of the buffer.
pub open spec fn parse_chunks(b: Seq<u8>, pos: int, acc: MDLXContents) -> Result<MDLXContents, FormatError>
    decreases b.len() - pos,
{
    if pos >= b.len() {
        Ok(acc)
    } else if pos + 4 > b.len() {
        Err(FormatError::OutOfBounds)
    } else {
        match parse_chunk(b, pos + 4, u32_at(b, pos), acc) {
            Err(e) => Err(e),
            Ok((m, p)) => if p <= pos || p > b.len() {
                Err(FormatError::OutOfBounds)
            } else {
                parse_chunks(b, p, m)
            },
        }
    }
}

/// Decoding a whole file: the magic tag, then chunks until the buffer ends.
pub open spec fn parse_mdx(b: Seq<u8>) -> Result<MDLXContents, FormatError> {
    if b.len() < 4 {
        Err(FormatError::OutOfBounds)
    } else if u32_at(b, 0) != MDLX_TAG {
        Err(FormatError::InvalidMagic(u32_at(b, 0)))
    } else {
        parse_chunks(b, 4, empty_contents())
    }
}

/// The encoded length of an optional chunk with its tag, clamped to `usize::MAX`.
fn block_size<T: Record>(tag: u32, o: &Option<T>) -> (r: usize)
    ensures
        r == sat(chunk_block::<T>(tag, opt_model(*o)).len() as int),
{
    match o {
        Some(c) => {
            let k = c.total_bytes_size();
            proof {
                lemma_u32_bytes(tag);
                lemma_sat_add(4, T::model_bytes(c@).len() as int);
            }
            add_sat(4, k)
        },
        None => 0,
    }
}

/// Writes an optional chunk, preceded by its tag.
fn write_block<T: Record>(out: &mut Vec<u8>, tag: u32, o: &Option<T>) -> (r: Result<(), FormatError>)
    ensures
        r is Ok <==> chunk_encodable::<T>(opt_model(*o)),
        r is Ok ==> final(out)@ == old(out)@ + chunk_block::<T>(tag, opt_model(*o)),
        r is Err ==> r == Err::<(), FormatError>(FormatError::StringTooLong),
{
    proof {
        reveal(chunk_encodable);
    }
    match o {
        Some(c) => {
            let ghost start = out@;
            write_u32(out, tag);
            let r = c.encode(out);
            proof {
                if r is Ok {
                    assert(out@ =~= start + chunk_block::<T>(tag, opt_model(*o)));
                }
            }
            r
        },
        None => {
            assert(out@ =~= old(out)@ + chunk_block::<T>(tag, opt_model(*o)));
            Ok(())
        },
    }
}

/// The model of an optional chunk after its record sizes, then its own size,
/// are recomputed.
#[verifier::opaque]
pub open spec fn sized_opt<T: Chunk>(o: Option<T::V>) -> Option<T::V> {
    match o {
        Some(c) => Some(T::sized(T::resized(c))),
        None => None,
    }
}

/// Recomputes the sizes of the records of an optional chunk, then its own size.
fn correct_block<T: Chunk>(tag: u32, o: &mut Option<T>)
    requires
        chunk_block::<T>(tag, opt_model(*old(o))).len() <= u32::MAX,
    ensures
        opt_model(*final(o)) == sized_opt::<T>(opt_model(*old(o))),
        chunk_block::<T>(tag, opt_model(*final(o))).len()
            == chunk_block::<T>(tag, opt_model(*old(o))).len(),
        chunk_encodable::<T>(opt_model(*final(o))) == chunk_encodable::<T>(opt_model(*old(o))),
{
    proof {
        reveal(chunk_encodable);
        reveal(sized_opt);
        lemma_u32_bytes(tag);
    }
    match o {
        Some(c) => {
            proof {
                T::lemma_resized(c@);
            }
            c.calculate_sizes();
            proof {
                T::lemma_chunk_min_len(c@);
            }
            c.calculate_chunk_size();
        },
        None => {},
    }
}


#[verifier::opaque]
pub open spec fn chunk_wf<T: Record>(o: Option<T::V>) -> bool {
    match o {
        Some(c) => T::wf(c),
        None => true,
    }
}

/// Decoding an optional chunk that is present gives its tag, then the chunk.
pub proof fn lemma_chunk_block_round_trip<T: Record>(tag: u32, o: Option<T::V>, b: Seq<u8>, q: int)
    requires
        chunk_wf::<T>(o),
        0 <= q,
        q + chunk_block::<T>(tag, o).len() <= b.len(),
        b.subrange(q, q + chunk_block::<T>(tag, o).len()) == chunk_block::<T>(tag, o),
    ensures
        o is None ==> chunk_block::<T>(tag, o).len() == 0,
        o matches Some(c) ==> {
            &&& chunk_block::<T>(tag, o).len() > 4
            &&& u32_at(b, q) == tag
            &&& T::parse(b, q + 4)
                == Ok::<(T::V, int), FormatError>((c, q + chunk_block::<T>(tag, o).len()))
        },
{
    reveal(chunk_wf);
    if let Some(c) = o {
        lemma_u32_bytes(tag);
        lemma_split(b, q, u32_bytes(tag), T::model_bytes(c));
        T::lemma_round_trip(c, b, q + 4);
    }
}


/// A model that decoding its encoding gives back: every chunk present is well formed.
pub open spec fn mdx_wf(m: MDLXContents) -> bool {
    &&& chunk_wf::<VersionChunk>(m.version_chunk)
    &&& chunk_wf::<ModelChunk>(m.model_chunk)
    &&& chunk_wf::<SequenceChunk>(m.sequence_chunk)
    &&& chunk_wf::<GlobalSequenceChunk>(m.global_sequence_chunk)
    &&& chunk_wf::<TextureChunk>(m.texture_chunk)
    &&& chunk_wf::<TextureAnimationChunk>(m.texture_animation_chunk)
    &&& chunk_wf::<GeosetChunk>(m.geoset_chunk)
    &&& chunk_wf::<GeosetAnimationChunk>(m.geoset_animation_chunk)
    &&& chunk_wf::<BoneChunk>(m.bone_chunk)
    &&& chunk_wf::<LightChunk>(m.light_chunk)
    &&& chunk_wf::<HelperChunk>(m.helper_chunk)
    &&& chunk_wf::<AttachmentChunk>(m.attachment_chunk)
    &&& chunk_wf::<PivotPointChunk>(m.pivot_point_chunk)
    &&& chunk_wf::<ParticleEmitterChunk>(m.particle_emitter_chunk)
    &&& chunk_wf::<ParticleEmitter2Chunk>(m.particle_emitter2_chunk)
    &&& chunk_wf::<RibbonEmitterChunk>(m.ribbon_emitter_chunk)
    &&& chunk_wf::<EventObjectChunk>(m.event_object_chunk)
    &&& chunk_wf::<CameraChunk>(m.camera_chunk)
    &&& chunk_wf::<CollisionShapeChunk>(m.collision_shape_chunk)
    &&& chunk_wf::<MaterialChunk>(m.material_chunk)
}

/// The chunks of a well-formed model from the `MTLS` chunk on decode back into it.
proof fn lemma_chunks_from_19(m: MDLXContents, b: Seq<u8>, o: int)
    requires
        chunk_wf::<MaterialChunk>(m.material_chunk),
        0 <= o,
        o + (chunk_block::<MaterialChunk>(MTLS_TAG, m.material_chunk)).len() == b.len(),
        b.subrange(o, b.len() as int) == chunk_block::<MaterialChunk>(MTLS_TAG, m.material_chunk),
    ensures
        parse_chunks(b, o, MDLXContents {
            material_chunk: None,
            ..m
        }) == Ok::<MDLXContents, FormatError>(m),
{
    lemma_chunk_block_round_trip::<MaterialChunk>(MTLS_TAG, m.material_chunk, b, o);
    assert(parse_chunks(b, b.len() as int, m) == Ok::<MDLXContents, FormatError>(m));
    if m.material_chunk is None {
        assert(MDLXContents { material_chunk: None, ..m } == m);
    }
}

/// The chunks of a well-formed model from the `CLID` chunk on decode back into it.
proof fn lemma_chunks_from_18(m: MDLXContents, b: Seq<u8>, o: int)
    requires
        chunk_wf::<CollisionShapeChunk>(m.collision_shape_chunk),
        chunk_wf::<MaterialChunk>(m.material_chunk),
        0 <= o,
        o + (chunk_block::<CollisionShapeChunk>(CLID_TAG, m.collision_shape_chunk) + chunk_block::<MaterialChunk>(MTLS_TAG, m.material_chunk)).len()
            == b.len(),
        b.subrange(o, b.len() as int)
            == chunk_block::<CollisionShapeChunk>(CLID_TAG, m.collision_shape_chunk) + chunk_block::<MaterialChunk>(MTLS_TAG, m.material_chunk),
    ensures
        parse_chunks(b, o, MDLXContents {
            collision_shape_chunk: None,
            material_chunk: None,
            ..m
        }) == Ok::<MDLXContents, FormatError>(m),
{
    lemma_split(b, o, chunk_block::<CollisionShapeChunk>(CLID_TAG, m.collision_shape_chunk), chunk_block::<MaterialChunk>(MTLS_TAG, m.material_chunk));
    lemma_chunk_block_round_trip::<CollisionShapeChunk>(CLID_TAG, m.collision_shape_chunk, b, o);
    lemma_chunks_from_19(m, b, o + (chunk_block::<CollisionShapeChunk>(CLID_TAG, m.collision_shape_chunk)).len());
    if m.collision_shape_chunk is None {
        assert(MDLXContents {
            collision_shape_chunk: None,
            material_chunk: None,
            ..m
        } == MDLXContents { material_chunk: None, ..m });
    }
}

/// The chunks of a well-formed model from the `CAMS` chunk on decode back into it.
proof fn lemma_chunks_from_17(m: MDLXContents, b: Seq<u8>, o: int)
    requires
        chunk_wf::<CameraChunk>(m.camera_chunk),
        chunk_wf::<CollisionShapeChunk>(m.collision_shape_chunk),
        chunk_wf::<MaterialChunk>(m.material_chunk),
        0 <= o,
        o + (chunk_block::<CameraChunk>(CAMS_TAG, m.camera_chunk) + (chunk_block::<CollisionShapeChunk>(CLID_TAG, m.collision_shape_chunk) + chunk_block::<MaterialChunk>(MTLS_TAG, m.material_chunk))).len()
            == b.len(),
        b.subrange(o, b.len() as int)
            == chunk_block::<CameraChunk>(CAMS_TAG, m.camera_chunk) + (chunk_block::<CollisionShapeChunk>(CLID_TAG, m.collision_shape_chunk) + chunk_block::<MaterialChunk>(MTLS_TAG, m.material_chunk)),
    ensures
        parse_chunks(b, o, MDLXContents {
            camera_chunk: None,
            collision_shape_chunk: None,
            material_chunk: None,
            ..m
        }) == Ok::<MDLXContents, FormatError>(m),
{
    lemma_split(b, o, chunk_block::<CameraChunk>(CAMS_TAG, m.camera_chunk), chunk_block::<CollisionShapeChunk>(CLID_TAG, m.collision_shape_chunk) + chunk_block::<MaterialChunk>(MTLS_TAG, m.material_chunk));
    lemma_chunk_block_round_trip::<CameraChunk>(CAMS_TAG, m.camera_chunk, b, o);
    lemma_chunks_from_18(m, b, o + (chunk_block::<CameraChunk>(CAMS_TAG, m.camera_chunk)).len());
    if m.camera_chunk is None {
        assert(MDLXContents {
            camera_chunk: None,
            collision_shape_chunk: None,
            material_chunk: None,
            ..m
        } == MDLXContents { collision_shape_chunk: None, material_chunk: None, ..m });
    }
}

/// The chunks of a well-formed model from the `EVTS` chunk on decode back into it.
proof fn lemma_chunks_from_16(m: MDLXContents, b: Seq<u8>, o: int)
    requires
        chunk_wf::<EventObjectChunk>(m.event_object_chunk),
        chunk_wf::<CameraChunk>(m.camera_chunk),
        chunk_wf::<CollisionShapeChunk>(m.collision_shape_chunk),
        chunk_wf::<MaterialChunk>(m.material_chunk),
        0 <= o,
        o + (chunk_block::<EventObjectChunk>(EVTS_TAG, m.event_object_chunk) + (chunk_block::<CameraChunk>(CAMS_TAG, m.camera_chunk) + (chunk_block::<CollisionShapeChunk>(CLID_TAG, m.collision_shape_chunk) + chunk_block::<MaterialChunk>(MTLS_TAG, m.material_chunk)))).len()
            == b.len(),
        b.subrange(o, b.len() as int)
            == chunk_block::<EventObjectChunk>(EVTS_TAG, m.event_object_chunk) + (chunk_block::<CameraChunk>(CAMS_TAG, m.camera_chunk) + (chunk_block::<CollisionShapeChunk>(CLID_TAG, m.collision_shape_chunk) + chunk_block::<MaterialChunk>(MTLS_TAG, m.material_chunk))),
    ensures
        parse_chunks(b, o, MDLXContents {
            event_object_chunk: None,
            camera_chunk: None,
            collision_shape_chunk: None,
            material_chunk: None,
            ..m
        }) == Ok::<MDLXContents, FormatError>(m),
{
    lemma_split(b, o, chunk_block::<EventObjectChunk>(EVTS_TAG, m.event_object_chunk), chunk_block::<CameraChunk>(CAMS_TAG, m.camera_chunk) + (chunk_block::<CollisionShapeChunk>(CLID_TAG, m.collision_shape_chunk) + chunk_block::<MaterialChunk>(MTLS_TAG, m.material_chunk)));
    lemma_chunk_block_round_trip::<EventObjectChunk>(EVTS_TAG, m.event_object_chunk, b, o);
    lemma_chunks_from_17(m, b, o + (chunk_block::<EventObjectChunk>(EVTS_TAG, m.event_object_chunk)).len());
    if m.event_object_chunk is None {
        assert(MDLXContents {
            event_object_chunk: None,
            camera_chunk: None,
            collision_shape_chunk: None,
            material_chunk: None,
            ..m
        } == MDLXContents {
            camera_chunk: None,
            collision_shape_chunk: None,
            material_chunk: None,
            ..m
        });
    }
}

/// The chunks of a well-formed model from the `RIBB` chunk on decode back into it.
proof fn lemma_chunks_from_15(m: MDLXContents, b: Seq<u8>, o: int)
    requires
        chunk_wf::<RibbonEmitterChunk>(m.ribbon_emitter_chunk),
        chunk_wf::<EventObjectChunk>(m.event_object_chunk),
        chunk_wf::<CameraChunk>(m.camera_chunk),
        chunk_wf::<CollisionShapeChunk>(m.collision_shape_chunk),
        chunk_wf::<MaterialChunk>(m.material_chunk),
        0 <= o,
        o + (chunk_block::<RibbonEmitterChunk>(RIBB_TAG, m.ribbon_emitter_chunk) + (chunk_block::<EventObjectChunk>(EVTS_TAG, m.event_object_chunk) + (chunk_block::<CameraChunk>(CAMS_TAG, m.camera_chunk) + (chunk_block::<CollisionShapeChunk>(CLID_TAG, m.collision_shape_chunk) + chunk_block::<MaterialChunk>(MTLS_TAG, m.material_chunk))))).len()
            == b.len(),
        b.subrange(o, b.len() as int)
            == chunk_block::<RibbonEmitterChunk>(RIBB_TAG, m.ribbon_emitter_chunk) + (chunk_block::<EventObjectChunk>(EVTS_TAG, m.event_object_chunk) + (chunk_block::<CameraChunk>(CAMS_TAG, m.camera_chunk) + (chunk_block::<CollisionShapeChunk>(CLID_TAG, m.collision_shape_chunk) + chunk_block::<MaterialChunk>(MTLS_TAG, m.material_chunk)))),
    ensures
        parse_chunks(b, o, MDLXContents {
            ribbon_emitter_chunk: None,
            event_object_chunk: None,
            camera_chunk: None,
            collision_shape_chunk: None,
            material_chunk: None,
            ..m
        }) == Ok::<MDLXContents, FormatError>(m),
{
    lemma_split(b, o, chunk_block::<RibbonEmitterChunk>(RIBB_TAG, m.ribbon_emitter_chunk), chunk_block::<EventObjectChunk>(EVTS_TAG, m.event_object_chunk) + (chunk_block::<CameraChunk>(CAMS_TAG, m.camera_chunk) + (chunk_block::<CollisionShapeChunk>(CLID_TAG, m.collision_shape_chunk) + chunk_block::<MaterialChunk>(MTLS_TAG, m.material_chunk))));
    lemma_chunk_block_round_trip::<RibbonEmitterChunk>(RIBB_TAG, m.ribbon_emitter_chunk, b, o);
    lemma_chunks_from_16(m, b, o + (chunk_block::<RibbonEmitterChunk>(RIBB_TAG, m.ribbon_emitter_chunk)).len());
    if m.ribbon_emitter_chunk is None {
        assert(MDLXContents {
            ribbon_emitter_chunk: None,
            event_object_chunk: None,
            camera_chunk: None,
            collision_shape_chunk: None,
            material_chunk: None,
            ..m
        } == MDLXContents {
            event_object_chunk: None,
            camera_chunk: None,
            collision_shape_chunk: None,
            material_chunk: None,
            ..m
        });
    }
}

/// The chunks of a well-formed model from the `PRE2` chunk on decode back into it.
proof fn lemma_chunks_from_14(m: MDLXContents, b: Seq<u8>, o: int)
    requires
        chunk_wf::<ParticleEmitter2Chunk>(m.particle_emitter2_chunk),
        chunk_wf::<RibbonEmitterChunk>(m.ribbon_emitter_chunk),
        chunk_wf::<EventObjectChunk>(m.event_object_chunk),
        chunk_wf::<CameraChunk>(m.camera_chunk),
        chunk_wf::<CollisionShapeChunk>(m.collision_shape_chunk),
        chunk_wf::<MaterialChunk>(m.material_chunk),
        0 <= o,
        o + (chunk_block::<ParticleEmitter2Chunk>(PRE2_TAG, m.particle_emitter2_chunk) + (chunk_block::<RibbonEmitterChunk>(RIBB_TAG, m.ribbon_emitter_chunk) + (chunk_block::<EventObjectChunk>(EVTS_TAG, m.event_object_chunk) + (chunk_block::<CameraChunk>(CAMS_TAG, m.camera_chunk) + (chunk_block::<CollisionShapeChunk>(CLID_TAG, m.collision_shape_chunk) + chunk_block::<MaterialChunk>(MTLS_TAG, m.material_chunk)))))).len()
            == b.len(),
        b.subrange(o, b.len() as int)
            == chunk_block::<ParticleEmitter2Chunk>(PRE2_TAG, m.particle_emitter2_chunk) + (chunk_block::<RibbonEmitterChunk>(RIBB_TAG, m.ribbon_emitter_chunk) + (chunk_block::<EventObjectChunk>(EVTS_TAG, m.event_object_chunk) + (chunk_block::<CameraChunk>(CAMS_TAG, m.camera_chunk) + (chunk_block::<CollisionShapeChunk>(CLID_TAG, m.collision_shape_chunk) + chunk_block::<MaterialChunk>(MTLS_TAG, m.material_chunk))))),
    ensures
        parse_chunks(b, o, MDLXContents {
            particle_emitter2_chunk: None,
            ribbon_emitter_chunk: None,
            event_object_chunk: None,
            camera_chunk: None,
            collision_shape_chunk: None,
            material_chunk: None,
            ..m
        }) == Ok::<MDLXContents, FormatError>(m),
{
    lemma_split(b, o, chunk_block::<ParticleEmitter2Chunk>(PRE2_TAG, m.particle_emitter2_chunk), chunk_block::<RibbonEmitterChunk>(RIBB_TAG, m.ribbon_emitter_chunk) + (chunk_block::<EventObjectChunk>(EVTS_TAG, m.event_object_chunk) + (chunk_block::<CameraChunk>(CAMS_TAG, m.camera_chunk) + (chunk_block::<CollisionShapeChunk>(CLID_TAG, m.collision_shape_chunk) + chunk_block::<MaterialChunk>(MTLS_TAG, m.material_chunk)))));
    lemma_chunk_block_round_trip::<ParticleEmitter2Chunk>(PRE2_TAG, m.particle_emitter2_chunk, b, o);
    lemma_chunks_from_15(m, b, o + (chunk_block::<ParticleEmitter2Chunk>(PRE2_TAG, m.particle_emitter2_chunk)).len());
    if m.particle_emitter2_chunk is None {
        assert(MDLXContents {
            particle_emitter2_chunk: None,
            ribbon_emitter_chunk: None,
            event_object_chunk: None,
            camera_chunk: None,
            collision_shape_chunk: None,
            material_chunk: None,
            ..m
        } == MDLXContents {
            ribbon_emitter_chunk: None,
            event_object_chunk: None,
            camera_chunk: None,
            collision_shape_chunk: None,
            material_chunk: None,
            ..m
        });
    }
}

/// The chunks of a well-formed model from the `PREM` chunk on decode back into it.
proof fn lemma_chunks_from_13(m: MDLXContents, b: Seq<u8>, o: int)
    requires
        chunk_wf::<ParticleEmitterChunk>(m.particle_emitter_chunk),
        chunk_wf::<ParticleEmitter2Chunk>(m.particle_emitter2_chunk),
        chunk_wf::<RibbonEmitterChunk>(m.ribbon_emitter_chunk),
        chunk_wf::<EventObjectChunk>(m.event_object_chunk),
        chunk_wf::<CameraChunk>(m.camera_chunk),
        chunk_wf::<CollisionShapeChunk>(m.collision_shape_chunk),
        chunk_wf::<MaterialChunk>(m.material_chunk),
        0 <= o,
        o + (chunk_block::<ParticleEmitterChunk>(PREM_TAG, m.particle_emitter_chunk) + (chunk_block::<ParticleEmitter2Chunk>(PRE2_TAG, m.particle_emitter2_chunk) + (chunk_block::<RibbonEmitterChunk>(RIBB_TAG, m.ribbon_emitter_chunk) + (chunk_block::<EventObjectChunk>(EVTS_TAG, m.event_object_chunk) + (chunk_block::<CameraChunk>(CAMS_TAG, m.camera_chunk) + (chunk_block::<CollisionShapeChunk>(CLID_TAG, m.collision_shape_chunk) + chunk_block::<MaterialChunk>(MTLS_TAG, m.material_chunk))))))).len()
            == b.len(),
        b.subrange(o, b.len() as int)
            == chunk_block::<ParticleEmitterChunk>(PREM_TAG, m.particle_emitter_chunk) + (chunk_block::<ParticleEmitter2Chunk>(PRE2_TAG, m.particle_emitter2_chunk) + (chunk_block::<RibbonEmitterChunk>(RIBB_TAG, m.ribbon_emitter_chunk) + (chunk_block::<EventObjectChunk>(EVTS_TAG, m.event_object_chunk) + (chunk_block::<CameraChunk>(CAMS_TAG, m.camera_chunk) + (chunk_block::<CollisionShapeChunk>(CLID_TAG, m.collision_shape_chunk) + chunk_block::<MaterialChunk>(MTLS_TAG, m.material_chunk)))))),
    ensures
        parse_chunks(b, o, MDLXContents {
            particle_emitter_chunk: None,
            particle_emitter2_chunk: None,
            ribbon_emitter_chunk: None,
            event_object_chunk: None,
            camera_chunk: None,
            collision_shape_chunk: None,
            material_chunk: None,
            ..m
        }) == Ok::<MDLXContents, FormatError>(m),
{
    lemma_split(b, o, chunk_block::<ParticleEmitterChunk>(PREM_TAG, m.particle_emitter_chunk), chunk_block::<ParticleEmitter2Chunk>(PRE2_TAG, m.particle_emitter2_chunk) + (chunk_block::<RibbonEmitterChunk>(RIBB_TAG, m.ribbon_emitter_chunk) + (chunk_block::<EventObjectChunk>(EVTS_TAG, m.event_object_chunk) + (chunk_block::<CameraChunk>(CAMS_TAG, m.camera_chunk) + (chunk_block::<CollisionShapeChunk>(CLID_TAG, m.collision_shape_chunk) + chunk_block::<MaterialChunk>(MTLS_TAG, m.material_chunk))))));
    lemma_chunk_block_round_trip::<ParticleEmitterChunk>(PREM_TAG, m.particle_emitter_chunk, b, o);
    lemma_chunks_from_14(m, b, o + (chunk_block::<ParticleEmitterChunk>(PREM_TAG, m.particle_emitter_chunk)).len());
    if m.particle_emitter_chunk is None {
        assert(MDLXContents {
            particle_emitter_chunk: None,
            particle_emitter2_chunk: None,
            ribbon_emitter_chunk: None,
            event_object_chunk: None,
            camera_chunk: None,
            collision_shape_chunk: None,
            material_chunk: None,
            ..m
        } == MDLXContents {
            particle_emitter2_chunk: None,
            ribbon_emitter_chunk: None,
            event_object_chunk: None,
            camera_chunk: None,
            collision_shape_chunk: None,
            material_chunk: None,
            ..m
        });
    }
}

/// The chunks of a well-formed model from the `PIVT` chunk on decode back into it.
proof fn lemma_chunks_from_12(m: MDLXContents, b: Seq<u8>, o: int)
    requires
        chunk_wf::<PivotPointChunk>(m.pivot_point_chunk),
        chunk_wf::<ParticleEmitterChunk>(m.particle_emitter_chunk),
        chunk_wf::<ParticleEmitter2Chunk>(m.particle_emitter2_chunk),
        chunk_wf::<RibbonEmitterChunk>(m.ribbon_emitter_chunk),
        chunk_wf::<EventObjectChunk>(m.event_object_chunk),
        chunk_wf::<CameraChunk>(m.camera_chunk),
        chunk_wf::<CollisionShapeChunk>(m.collision_shape_chunk),
        chunk_wf::<MaterialChunk>(m.material_chunk),
        0 <= o,
        o + (chunk_block::<PivotPointChunk>(PIVT_TAG, m.pivot_point_chunk) + (chunk_block::<ParticleEmitterChunk>(PREM_TAG, m.particle_emitter_chunk) + (chunk_block::<ParticleEmitter2Chunk>(PRE2_TAG, m.particle_emitter2_chunk) + (chunk_block::<RibbonEmitterChunk>(RIBB_TAG, m.ribbon_emitter_chunk) + (chunk_block::<EventObjectChunk>(EVTS_TAG, m.event_object_chunk) + (chunk_block::<CameraChunk>(CAMS_TAG, m.camera_chunk) + (chunk_block::<CollisionShapeChunk>(CLID_TAG, m.collision_shape_chunk) + chunk_block::<MaterialChunk>(MTLS_TAG, m.material_chunk)))))))).len()
            == b.len(),
        b.subrange(o, b.len() as int)
            == chunk_block::<PivotPointChunk>(PIVT_TAG, m.pivot_point_chunk) + (chunk_block::<ParticleEmitterChunk>(PREM_TAG, m.particle_emitter_chunk) + (chunk_block::<ParticleEmitter2Chunk>(PRE2_TAG, m.particle_emitter2_chunk) + (chunk_block::<RibbonEmitterChunk>(RIBB_TAG, m.ribbon_emitter_chunk) + (chunk_block::<EventObjectChunk>(EVTS_TAG, m.event_object_chunk) + (chunk_block::<CameraChunk>(CAMS_TAG, m.camera_chunk) + (chunk_block::<CollisionShapeChunk>(CLID_TAG, m.collision_shape_chunk) + chunk_block::<MaterialChunk>(MTLS_TAG, m.material_chunk))))))),
    ensures
        parse_chunks(b, o, MDLXContents {
            pivot_point_chunk: None,
            particle_emitter_chunk: None,
            particle_emitter2_chunk: None,
            ribbon_emitter_chunk: None,
            event_object_chunk: None,
            camera_chunk: None,
            collision_shape_chunk: None,
            material_chunk: None,
            ..m
        }) == Ok::<MDLXContents, FormatError>(m),
{
    lemma_split(b, o, chunk_block::<PivotPointChunk>(PIVT_TAG, m.pivot_point_chunk), chunk_block::<ParticleEmitterChunk>(PREM_TAG, m.particle_emitter_chunk) + (chunk_block::<ParticleEmitter2Chunk>(PRE2_TAG, m.particle_emitter2_chunk) + (chunk_block::<RibbonEmitterChunk>(RIBB_TAG, m.ribbon_emitter_chunk) + (chunk_block::<EventObjectChunk>(EVTS_TAG, m.event_object_chunk) + (chunk_block::<CameraChunk>(CAMS_TAG, m.camera_chunk) + (chunk_block::<CollisionShapeChunk>(CLID_TAG, m.collision_shape_chunk) + chunk_block::<MaterialChunk>(MTLS_TAG, m.material_chunk)))))));
    lemma_chunk_block_round_trip::<PivotPointChunk>(PIVT_TAG, m.pivot_point_chunk, b, o);
    lemma_chunks_from_13(m, b, o + (chunk_block::<PivotPointChunk>(PIVT_TAG, m.pivot_point_chunk)).len());
    if m.pivot_point_chunk is None {
        assert(MDLXContents {
            pivot_point_chunk: None,
            particle_emitter_chunk: None,
            particle_emitter2_chunk: None,
            ribbon_emitter_chunk: None,
            event_object_chunk: None,
            camera_chunk: None,
            collision_shape_chunk: None,
            material_chunk: None,
            ..m
        } == MDLXContents {
            particle_emitter_chunk: None,
            particle_emitter2_chunk: None,
            ribbon_emitter_chunk: None,
            event_object_chunk: None,
            camera_chunk: None,
            collision_shape_chunk: None,
            material_chunk: None,
            ..m
        });
    }
}

/// The chunks of a well-formed model from the `ATCH` chunk on decode back into it.
proof fn lemma_chunks_from_11(m: MDLXContents, b: Seq<u8>, o: int)
    requires
        chunk_wf::<AttachmentChunk>(m.attachment_chunk),
        chunk_wf::<PivotPointChunk>(m.pivot_point_chunk),
        chunk_wf::<ParticleEmitterChunk>(m.particle_emitter_chunk),
        chunk_wf::<ParticleEmitter2Chunk>(m.particle_emitter2_chunk),
        chunk_wf::<RibbonEmitterChunk>(m.ribbon_emitter_chunk),
        chunk_wf::<EventObjectChunk>(m.event_object_chunk),
        chunk_wf::<CameraChunk>(m.camera_chunk),
        chunk_wf::<CollisionShapeChunk>(m.collision_shape_chunk),
        chunk_wf::<MaterialChunk>(m.material_chunk),
        0 <= o,
        o + (chunk_block::<AttachmentChunk>(ATCH_TAG, m.attachment_chunk) + (chunk_block::<PivotPointChunk>(PIVT_TAG, m.pivot_point_chunk) + (chunk_block::<ParticleEmitterChunk>(PREM_TAG, m.particle_emitter_chunk) + (chunk_block::<ParticleEmitter2Chunk>(PRE2_TAG, m.particle_emitter2_chunk) + (chunk_block::<RibbonEmitterChunk>(RIBB_TAG, m.ribbon_emitter_chunk) + (chunk_block::<EventObjectChunk>(EVTS_TAG, m.event_object_chunk) + (chunk_block::<CameraChunk>(CAMS_TAG, m.camera_chunk) + (chunk_block::<CollisionShapeChunk>(CLID_TAG, m.collision_shape_chunk) + chunk_block::<MaterialChunk>(MTLS_TAG, m.material_chunk))))))))).len()
            == b.len(),
        b.subrange(o, b.len() as int)
            == chunk_block::<AttachmentChunk>(ATCH_TAG, m.attachment_chunk) + (chunk_block::<PivotPointChunk>(PIVT_TAG, m.pivot_point_chunk) + (chunk_block::<ParticleEmitterChunk>(PREM_TAG, m.particle_emitter_chunk) + (chunk_block::<ParticleEmitter2Chunk>(PRE2_TAG, m.particle_emitter2_chunk) + (chunk_block::<RibbonEmitterChunk>(RIBB_TAG, m.ribbon_emitter_chunk) + (chunk_block::<EventObjectChunk>(EVTS_TAG, m.event_object_chunk) + (chunk_block::<CameraChunk>(CAMS_TAG, m.camera_chunk) + (chunk_block::<CollisionShapeChunk>(CLID_TAG, m.collision_shape_chunk) + chunk_block::<MaterialChunk>(MTLS_TAG, m.material_chunk)))))))),
    ensures
        parse_chunks(b, o, MDLXContents {
            attachment_chunk: None,
            pivot_point_chunk: None,
            particle_emitter_chunk: None,
            particle_emitter2_chunk: None,
            ribbon_emitter_chunk: None,
            event_object_chunk: None,
            camera_chunk: None,
            collision_shape_chunk: None,
            material_chunk: None,
            ..m
        }) == Ok::<MDLXContents, FormatError>(m),
{
    lemma_split(b, o, chunk_block::<AttachmentChunk>(ATCH_TAG, m.attachment_chunk), chunk_block::<PivotPointChunk>(PIVT_TAG, m.pivot_point_chunk) + (chunk_block::<ParticleEmitterChunk>(PREM_TAG, m.particle_emitter_chunk) + (chunk_block::<ParticleEmitter2Chunk>(PRE2_TAG, m.particle_emitter2_chunk) + (chunk_block::<RibbonEmitterChunk>(RIBB_TAG, m.ribbon_emitter_chunk) + (chunk_block::<EventObjectChunk>(EVTS_TAG, m.event_object_chunk) + (chunk_block::<CameraChunk>(CAMS_TAG, m.camera_chunk) + (chunk_block::<CollisionShapeChunk>(CLID_TAG, m.collision_shape_chunk) + chunk_block::<MaterialChunk>(MTLS_TAG, m.material_chunk))))))));
    lemma_chunk_block_round_trip::<AttachmentChunk>(ATCH_TAG, m.attachment_chunk, b, o);
    lemma_chunks_from_12(m, b, o + (chunk_block::<AttachmentChunk>(ATCH_TAG, m.attachment_chunk)).len());
    if m.attachment_chunk is None {
        assert(MDLXContents {
            attachment_chunk: None,
            pivot_point_chunk: None,
            particle_emitter_chunk: None,
            particle_emitter2_chunk: None,
            ribbon_emitter_chunk: None,
            event_object_chunk: None,
            camera_chunk: None,
            collision_shape_chunk: None,
            material_chunk: None,
            ..m
        } == MDLXContents {
            pivot_point_chunk: None,
            particle_emitter_chunk: None,
            particle_emitter2_chunk: None,
            ribbon_emitter_chunk: None,
            event_object_chunk: None,
            camera_chunk: None,
            collision_shape_chunk: None,
            material_chunk: None,
            ..m
        });
    }
}

/// The chunks of a well-formed model from the `HELP` chunk on decode back into it.
proof fn lemma_chunks_from_10(m: MDLXContents, b: Seq<u8>, o: int)
    requires
        chunk_wf::<HelperChunk>(m.helper_chunk),
        chunk_wf::<AttachmentChunk>(m.attachment_chunk),
        chunk_wf::<PivotPointChunk>(m.pivot_point_chunk),
        chunk_wf::<ParticleEmitterChunk>(m.particle_emitter_chunk),
        chunk_wf::<ParticleEmitter2Chunk>(m.particle_emitter2_chunk),
        chunk_wf::<RibbonEmitterChunk>(m.ribbon_emitter_chunk),
        chunk_wf::<EventObjectChunk>(m.event_object_chunk),
        chunk_wf::<CameraChunk>(m.camera_chunk),
        chunk_wf::<CollisionShapeChunk>(m.collision_shape_chunk),
        chunk_wf::<MaterialChunk>(m.material_chunk),
        0 <= o,
        o + (chunk_block::<HelperChunk>(HELP_TAG, m.helper_chunk) + (chunk_block::<AttachmentChunk>(ATCH_TAG, m.attachment_chunk) + (chunk_block::<PivotPointChunk>(PIVT_TAG, m.pivot_point_chunk) + (chunk_block::<ParticleEmitterChunk>(PREM_TAG, m.particle_emitter_chunk) + (chunk_block::<ParticleEmitter2Chunk>(PRE2_TAG, m.particle_emitter2_chunk) + (chunk_block::<RibbonEmitterChunk>(RIBB_TAG, m.ribbon_emitter_chunk) + (chunk_block::<EventObjectChunk>(EVTS_TAG, m.event_object_chunk) + (chunk_block::<CameraChunk>(CAMS_TAG, m.camera_chunk) + (chunk_block::<CollisionShapeChunk>(CLID_TAG, m.collision_shape_chunk) + chunk_block::<MaterialChunk>(MTLS_TAG, m.material_chunk)))))))))).len()
            == b.len(),
        b.subrange(o, b.len() as int)
            == chunk_block::<HelperChunk>(HELP_TAG, m.helper_chunk) + (chunk_block::<AttachmentChunk>(ATCH_TAG, m.attachment_chunk) + (chunk_block::<PivotPointChunk>(PIVT_TAG, m.pivot_point_chunk) + (chunk_block::<ParticleEmitterChunk>(PREM_TAG, m.particle_emitter_chunk) + (chunk_block::<ParticleEmitter2Chunk>(PRE2_TAG, m.particle_emitter2_chunk) + (chunk_block::<RibbonEmitterChunk>(RIBB_TAG, m.ribbon_emitter_chunk) + (chunk_block::<EventObjectChunk>(EVTS_TAG, m.event_object_chunk) + (chunk_block::<CameraChunk>(CAMS_TAG, m.camera_chunk) + (chunk_block::<CollisionShapeChunk>(CLID_TAG, m.collision_shape_chunk) + chunk_block::<MaterialChunk>(MTLS_TAG, m.material_chunk))))))))),
    ensures
        parse_chunks(b, o, MDLXContents {
            helper_chunk: None,
            attachment_chunk: None,
            pivot_point_chunk: None,
            particle_emitter_chunk: None,
            particle_emitter2_chunk: None,
            ribbon_emitter_chunk: None,
            event_object_chunk: None,
            camera_chunk: None,
            collision_shape_chunk: None,
            material_chunk: None,
            ..m
        }) == Ok::<MDLXContents, FormatError>(m),
{
    lemma_split(b, o, chunk_block::<HelperChunk>(HELP_TAG, m.helper_chunk), chunk_block::<AttachmentChunk>(ATCH_TAG, m.attachment_chunk) + (chunk_block::<PivotPointChunk>(PIVT_TAG, m.pivot_point_chunk) + (chunk_block::<ParticleEmitterChunk>(PREM_TAG, m.particle_emitter_chunk) + (chunk_block::<ParticleEmitter2Chunk>(PRE2_TAG, m.particle_emitter2_chunk) + (chunk_block::<RibbonEmitterChunk>(RIBB_TAG, m.ribbon_emitter_chunk) + (chunk_block::<EventObjectChunk>(EVTS_TAG, m.event_object_chunk) + (chunk_block::<CameraChunk>(CAMS_TAG, m.camera_chunk) + (chunk_block::<CollisionShapeChunk>(CLID_TAG, m.collision_shape_chunk) + chunk_block::<MaterialChunk>(MTLS_TAG, m.material_chunk)))))))));
    lemma_chunk_block_round_trip::<HelperChunk>(HELP_TAG, m.helper_chunk, b, o);
    lemma_chunks_from_11(m, b, o + (chunk_block::<HelperChunk>(HELP_TAG, m.helper_chunk)).len());
    if m.helper_chunk is None {
        assert(MDLXContents {
            helper_chunk: None,
            attachment_chunk: None,
            pivot_point_chunk: None,
            particle_emitter_chunk: None,
            particle_emitter2_chunk: None,
            ribbon_emitter_chunk: None,
            event_object_chunk: None,
            camera_chunk: None,
            collision_shape_chunk: None,
            material_chunk: None,
            ..m
        } == MDLXContents {
            attachment_chunk: None,
            pivot_point_chunk: None,
            particle_emitter_chunk: None,
            particle_emitter2_chunk: None,
            ribbon_emitter_chunk: None,
            event_object_chunk: None,
            camera_chunk: None,
            collision_shape_chunk: None,
            material_chunk: None,
            ..m
        });
    }
}

/// The chunks of a well-formed model from the `LITE` chunk on decode back into it.
proof fn lemma_chunks_from_9(m: MDLXContents, b: Seq<u8>, o: int)
    requires
        chunk_wf::<LightChunk>(m.light_chunk),
        chunk_wf::<HelperChunk>(m.helper_chunk),
        chunk_wf::<AttachmentChunk>(m.attachment_chunk),
        chunk_wf::<PivotPointChunk>(m.pivot_point_chunk),
        chunk_wf::<ParticleEmitterChunk>(m.particle_emitter_chunk),
        chunk_wf::<ParticleEmitter2Chunk>(m.particle_emitter2_chunk),
        chunk_wf::<RibbonEmitterChunk>(m.ribbon_emitter_chunk),
        chunk_wf::<EventObjectChunk>(m.event_object_chunk),
        chunk_wf::<CameraChunk>(m.camera_chunk),
        chunk_wf::<CollisionShapeChunk>(m.collision_shape_chunk),
        chunk_wf::<MaterialChunk>(m.material_chunk),
        0 <= o,
        o + (chunk_block::<LightChunk>(LITE_TAG, m.light_chunk) + (chunk_block::<HelperChunk>(HELP_TAG, m.helper_chunk) + (chunk_block::<AttachmentChunk>(ATCH_TAG, m.attachment_chunk) + (chunk_block::<PivotPointChunk>(PIVT_TAG, m.pivot_point_chunk) + (chunk_block::<ParticleEmitterChunk>(PREM_TAG, m.particle_emitter_chunk) + (chunk_block::<ParticleEmitter2Chunk>(PRE2_TAG, m.particle_emitter2_chunk) + (chunk_block::<RibbonEmitterChunk>(RIBB_TAG, m.ribbon_emitter_chunk) + (chunk_block::<EventObjectChunk>(EVTS_TAG, m.event_object_chunk) + (chunk_block::<CameraChunk>(CAMS_TAG, m.camera_chunk) + (chunk_block::<CollisionShapeChunk>(CLID_TAG, m.collision_shape_chunk) + chunk_block::<MaterialChunk>(MTLS_TAG, m.material_chunk))))))))))).len()
            == b.len(),
        b.subrange(o, b.len() as int)
            == chunk_block::<LightChunk>(LITE_TAG, m.light_chunk) + (chunk_block::<HelperChunk>(HELP_TAG, m.helper_chunk) + (chunk_block::<AttachmentChunk>(ATCH_TAG, m.attachment_chunk) + (chunk_block::<PivotPointChunk>(PIVT_TAG, m.pivot_point_chunk) + (chunk_block::<ParticleEmitterChunk>(PREM_TAG, m.particle_emitter_chunk) + (chunk_block::<ParticleEmitter2Chunk>(PRE2_TAG, m.particle_emitter2_chunk) + (chunk_block::<RibbonEmitterChunk>(RIBB_TAG, m.ribbon_emitter_chunk) + (chunk_block::<EventObjectChunk>(EVTS_TAG, m.event_object_chunk) + (chunk_block::<CameraChunk>(CAMS_TAG, m.camera_chunk) + (chunk_block::<CollisionShapeChunk>(CLID_TAG, m.collision_shape_chunk) + chunk_block::<MaterialChunk>(MTLS_TAG, m.material_chunk)))))))))),
    ensures
        parse_chunks(b, o, MDLXContents {
            light_chunk: None,
            helper_chunk: None,
            attachment_chunk: None,
            pivot_point_chunk: None,
            particle_emitter_chunk: None,
            particle_emitter2_chunk: None,
            ribbon_emitter_chunk: None,
            event_object_chunk: None,
            camera_chunk: None,
            collision_shape_chunk: None,
            material_chunk: None,
            ..m
        }) == Ok::<MDLXContents, FormatError>(m),
{
    lemma_split(b, o, chunk_block::<LightChunk>(LITE_TAG, m.light_chunk), chunk_block::<HelperChunk>(HELP_TAG, m.helper_chunk) + (chunk_block::<AttachmentChunk>(ATCH_TAG, m.attachment_chunk) + (chunk_block::<PivotPointChunk>(PIVT_TAG, m.pivot_point_chunk) + (chunk_block::<ParticleEmitterChunk>(PREM_TAG, m.particle_emitter_chunk) + (chunk_block::<ParticleEmitter2Chunk>(PRE2_TAG, m.particle_emitter2_chunk) + (chunk_block::<RibbonEmitterChunk>(RIBB_TAG, m.ribbon_emitter_chunk) + (chunk_block::<EventObjectChunk>(EVTS_TAG, m.event_object_chunk) + (chunk_block::<CameraChunk>(CAMS_TAG, m.camera_chunk) + (chunk_block::<CollisionShapeChunk>(CLID_TAG, m.collision_shape_chunk) + chunk_block::<MaterialChunk>(MTLS_TAG, m.material_chunk))))))))));
    lemma_chunk_block_round_trip::<LightChunk>(LITE_TAG, m.light_chunk, b, o);
    lemma_chunks_from_10(m, b, o + (chunk_block::<LightChunk>(LITE_TAG, m.light_chunk)).len());
    if m.light_chunk is None {
        assert(MDLXContents {
            light_chunk: None,
            helper_chunk: None,
            attachment_chunk: None,
            pivot_point_chunk: None,
            particle_emitter_chunk: None,
            particle_emitter2_chunk: None,
            ribbon_emitter_chunk: None,
            event_object_chunk: None,
            camera_chunk: None,
            collision_shape_chunk: None,
            material_chunk: None,
            ..m
        } == MDLXContents {
            helper_chunk: None,
            attachment_chunk: None,
            pivot_point_chunk: None,
            particle_emitter_chunk: None,
            particle_emitter2_chunk: None,
            ribbon_emitter_chunk: None,
            event_object_chunk: None,
            camera_chunk: None,
            collision_shape_chunk: None,
            material_chunk: None,
            ..m
        });
    }
}

/// The chunks of a well-formed model from the `BONE` chunk on decode back into it.
proof fn lemma_chunks_from_8(m: MDLXContents, b: Seq<u8>, o: int)
    requires
        chunk_wf::<BoneChunk>(m.bone_chunk),
        chunk_wf::<LightChunk>(m.light_chunk),
        chunk_wf::<HelperChunk>(m.helper_chunk),
        chunk_wf::<AttachmentChunk>(m.attachment_chunk),
        chunk_wf::<PivotPointChunk>(m.pivot_point_chunk),
        chunk_wf::<ParticleEmitterChunk>(m.particle_emitter_chunk),
        chunk_wf::<ParticleEmitter2Chunk>(m.particle_emitter2_chunk),
        chunk_wf::<RibbonEmitterChunk>(m.ribbon_emitter_chunk),
        chunk_wf::<EventObjectChunk>(m.event_object_chunk),
        chunk_wf::<CameraChunk>(m.camera_chunk),
        chunk_wf::<CollisionShapeChunk>(m.collision_shape_chunk),
        chunk_wf::<MaterialChunk>(m.material_chunk),
        0 <= o,
        o + (chunk_block::<BoneChunk>(BONE_TAG, m.bone_chunk) + (chunk_block::<LightChunk>(LITE_TAG, m.light_chunk) + (chunk_block::<HelperChunk>(HELP_TAG, m.helper_chunk) + (chunk_block::<AttachmentChunk>(ATCH_TAG, m.attachment_chunk) + (chunk_block::<PivotPointChunk>(PIVT_TAG, m.pivot_point_chunk) + (chunk_block::<ParticleEmitterChunk>(PREM_TAG, m.particle_emitter_chunk) + (chunk_block::<ParticleEmitter2Chunk>(PRE2_TAG, m.particle_emitter2_chunk) + (chunk_block::<RibbonEmitterChunk>(RIBB_TAG, m.ribbon_emitter_chunk) + (chunk_block::<EventObjectChunk>(EVTS_TAG, m.event_object_chunk) + (chunk_block::<CameraChunk>(CAMS_TAG, m.camera_chunk) + (chunk_block::<CollisionShapeChunk>(CLID_TAG, m.collision_shape_chunk) + chunk_block::<MaterialChunk>(MTLS_TAG, m.material_chunk)))))))))))).len()
            == b.len(),
        b.subrange(o, b.len() as int)
            == chunk_block::<BoneChunk>(BONE_TAG, m.bone_chunk) + (chunk_block::<LightChunk>(LITE_TAG, m.light_chunk) + (chunk_block::<HelperChunk>(HELP_TAG, m.helper_chunk) + (chunk_block::<AttachmentChunk>(ATCH_TAG, m.attachment_chunk) + (chunk_block::<PivotPointChunk>(PIVT_TAG, m.pivot_point_chunk) + (chunk_block::<ParticleEmitterChunk>(PREM_TAG, m.particle_emitter_chunk) + (chunk_block::<ParticleEmitter2Chunk>(PRE2_TAG, m.particle_emitter2_chunk) + (chunk_block::<RibbonEmitterChunk>(RIBB_TAG, m.ribbon_emitter_chunk) + (chunk_block::<EventObjectChunk>(EVTS_TAG, m.event_object_chunk) + (chunk_block::<CameraChunk>(CAMS_TAG, m.camera_chunk) + (chunk_block::<CollisionShapeChunk>(CLID_TAG, m.collision_shape_chunk) + chunk_block::<MaterialChunk>(MTLS_TAG, m.material_chunk))))))))))),
    ensures
        parse_chunks(b, o, MDLXContents {
            bone_chunk: None,
            light_chunk: None,
            helper_chunk: None,
            attachment_chunk: None,
            pivot_point_chunk: None,
            particle_emitter_chunk: None,
            particle_emitter2_chunk: None,
            ribbon_emitter_chunk: None,
            event_object_chunk: None,
            camera_chunk: None,
            collision_shape_chunk: None,
            material_chunk: None,
            ..m
        }) == Ok::<MDLXContents, FormatError>(m),
{
    lemma_split(b, o, chunk_block::<BoneChunk>(BONE_TAG, m.bone_chunk), chunk_block::<LightChunk>(LITE_TAG, m.light_chunk) + (chunk_block::<HelperChunk>(HELP_TAG, m.helper_chunk) + (chunk_block::<AttachmentChunk>(ATCH_TAG, m.attachment_chunk) + (chunk_block::<PivotPointChunk>(PIVT_TAG, m.pivot_point_chunk) + (chunk_block::<ParticleEmitterChunk>(PREM_TAG, m.particle_emitter_chunk) + (chunk_block::<ParticleEmitter2Chunk>(PRE2_TAG, m.particle_emitter2_chunk) + (chunk_block::<RibbonEmitterChunk>(RIBB_TAG, m.ribbon_emitter_chunk) + (chunk_block::<EventObjectChunk>(EVTS_TAG, m.event_object_chunk) + (chunk_block::<CameraChunk>(CAMS_TAG, m.camera_chunk) + (chunk_block::<CollisionShapeChunk>(CLID_TAG, m.collision_shape_chunk) + chunk_block::<MaterialChunk>(MTLS_TAG, m.material_chunk)))))))))));
    lemma_chunk_block_round_trip::<BoneChunk>(BONE_TAG, m.bone_chunk, b, o);
    lemma_chunks_from_9(m, b, o + (chunk_block::<BoneChunk>(BONE_TAG, m.bone_chunk)).len());
    if m.bone_chunk is None {
        assert(MDLXContents {
            bone_chunk: None,
            light_chunk: None,
            helper_chunk: None,
            attachment_chunk: None,
            pivot_point_chunk: None,
            particle_emitter_chunk: None,
            particle_emitter2_chunk: None,
            ribbon_emitter_chunk: None,
            event_object_chunk: None,
            camera_chunk: None,
            collision_shape_chunk: None,
            material_chunk: None,
            ..m
        } == MDLXContents {
            light_chunk: None,
            helper_chunk: None,
            attachment_chunk: None,
            pivot_point_chunk: None,
            particle_emitter_chunk: None,
            particle_emitter2_chunk: None,
            ribbon_emitter_chunk: None,
            event_object_chunk: None,
            camera_chunk: None,
            collision_shape_chunk: None,
            material_chunk: None,
            ..m
        });
    }
}

/// The chunks of a well-formed model from the `GEOA` chunk on decode back into it.
proof fn lemma_chunks_from_7(m: MDLXContents, b: Seq<u8>, o: int)
    requires
        chunk_wf::<GeosetAnimationChunk>(m.geoset_animation_chunk),
        chunk_wf::<BoneChunk>(m.bone_chunk),
        chunk_wf::<LightChunk>(m.light_chunk),
        chunk_wf::<HelperChunk>(m.helper_chunk),
        chunk_wf::<AttachmentChunk>(m.attachment_chunk),
        chunk_wf::<PivotPointChunk>(m.pivot_point_chunk),
        chunk_wf::<ParticleEmitterChunk>(m.particle_emitter_chunk),
        chunk_wf::<ParticleEmitter2Chunk>(m.particle_emitter2_chunk),
        chunk_wf::<RibbonEmitterChunk>(m.ribbon_emitter_chunk),
        chunk_wf::<EventObjectChunk>(m.event_object_chunk),
        chunk_wf::<CameraChunk>(m.camera_chunk),
        chunk_wf::<CollisionShapeChunk>(m.collision_shape_chunk),
        chunk_wf::<MaterialChunk>(m.material_chunk),
        0 <= o,
        o + (chunk_block::<GeosetAnimationChunk>(GEOA_TAG, m.geoset_animation_chunk) + (chunk_block::<BoneChunk>(BONE_TAG, m.bone_chunk) + (chunk_block::<LightChunk>(LITE_TAG, m.light_chunk) + (chunk_block::<HelperChunk>(HELP_TAG, m.helper_chunk) + (chunk_block::<AttachmentChunk>(ATCH_TAG, m.attachment_chunk) + (chunk_block::<PivotPointChunk>(PIVT_TAG, m.pivot_point_chunk) + (chunk_block::<ParticleEmitterChunk>(PREM_TAG, m.particle_emitter_chunk) + (chunk_block::<ParticleEmitter2Chunk>(PRE2_TAG, m.particle_emitter2_chunk) + (chunk_block::<RibbonEmitterChunk>(RIBB_TAG, m.ribbon_emitter_chunk) + (chunk_block::<EventObjectChunk>(EVTS_TAG, m.event_object_chunk) + (chunk_block::<CameraChunk>(CAMS_TAG, m.camera_chunk) + (chunk_block::<CollisionShapeChunk>(CLID_TAG, m.collision_shape_chunk) + chunk_block::<MaterialChunk>(MTLS_TAG, m.material_chunk))))))))))))).len()
            == b.len(),
        b.subrange(o, b.len() as int)
            == chunk_block::<GeosetAnimationChunk>(GEOA_TAG, m.geoset_animation_chunk) + (chunk_block::<BoneChunk>(BONE_TAG, m.bone_chunk) + (chunk_block::<LightChunk>(LITE_TAG, m.light_chunk) + (chunk_block::<HelperChunk>(HELP_TAG, m.helper_chunk) + (chunk_block::<AttachmentChunk>(ATCH_TAG, m.attachment_chunk) + (chunk_block::<PivotPointChunk>(PIVT_TAG, m.pivot_point_chunk) + (chunk_block::<ParticleEmitterChunk>(PREM_TAG, m.particle_emitter_chunk) + (chunk_block::<ParticleEmitter2Chunk>(PRE2_TAG, m.particle_emitter2_chunk) + (chunk_block::<RibbonEmitterChunk>(RIBB_TAG, m.ribbon_emitter_chunk) + (chunk_block::<EventObjectChunk>(EVTS_TAG, m.event_object_chunk) + (chunk_block::<CameraChunk>(CAMS_TAG, m.camera_chunk) + (chunk_block::<CollisionShapeChunk>(CLID_TAG, m.collision_shape_chunk) + chunk_block::<MaterialChunk>(MTLS_TAG, m.material_chunk)))))))))))),
    ensures
        parse_chunks(b, o, MDLXContents {
            geoset_animation_chunk: None,
            bone_chunk: None,
            light_chunk: None,
            helper_chunk: None,
            attachment_chunk: None,
            pivot_point_chunk: None,
            particle_emitter_chunk: None,
            particle_emitter2_chunk: None,
            ribbon_emitter_chunk: None,
            event_object_chunk: None,
            camera_chunk: None,
            collision_shape_chunk: None,
            material_chunk: None,
            ..m
        }) == Ok::<MDLXContents, FormatError>(m),
{
    lemma_split(b, o, chunk_block::<GeosetAnimationChunk>(GEOA_TAG, m.geoset_animation_chunk), chunk_block::<BoneChunk>(BONE_TAG, m.bone_chunk) + (chunk_block::<LightChunk>(LITE_TAG, m.light_chunk) + (chunk_block::<HelperChunk>(HELP_TAG, m.helper_chunk) + (chunk_block::<AttachmentChunk>(ATCH_TAG, m.attachment_chunk) + (chunk_block::<PivotPointChunk>(PIVT_TAG, m.pivot_point_chunk) + (chunk_block::<ParticleEmitterChunk>(PREM_TAG, m.particle_emitter_chunk) + (chunk_block::<ParticleEmitter2Chunk>(PRE2_TAG, m.particle_emitter2_chunk) + (chunk_block::<RibbonEmitterChunk>(RIBB_TAG, m.ribbon_emitter_chunk) + (chunk_block::<EventObjectChunk>(EVTS_TAG, m.event_object_chunk) + (chunk_block::<CameraChunk>(CAMS_TAG, m.camera_chunk) + (chunk_block::<CollisionShapeChunk>(CLID_TAG, m.collision_shape_chunk) + chunk_block::<MaterialChunk>(MTLS_TAG, m.material_chunk))))))))))));
    lemma_chunk_block_round_trip::<GeosetAnimationChunk>(GEOA_TAG, m.geoset_animation_chunk, b, o);
    lemma_chunks_from_8(m, b, o + (chunk_block::<GeosetAnimationChunk>(GEOA_TAG, m.geoset_animation_chunk)).len());
    if m.geoset_animation_chunk is None {
        assert(MDLXContents {
            geoset_animation_chunk: None,
            bone_chunk: None,
            light_chunk: None,
            helper_chunk: None,
            attachment_chunk: None,
            pivot_point_chunk: None,
            particle_emitter_chunk: None,
            particle_emitter2_chunk: None,
            ribbon_emitter_chunk: None,
            event_object_chunk: None,
            camera_chunk: None,
            collision_shape_chunk: None,
            material_chunk: None,
            ..m
        } == MDLXContents {
            bone_chunk: None,
            light_chunk: None,
            helper_chunk: None,
            attachment_chunk: None,
            pivot_point_chunk: None,
            particle_emitter_chunk: None,
            particle_emitter2_chunk: None,
            ribbon_emitter_chunk: None,
            event_object_chunk: None,
            camera_chunk: None,
            collision_shape_chunk: None,
            material_chunk: None,
            ..m
        });
    }
}

/// The chunks of a well-formed model from the `GEOS` chunk on decode back into it.
proof fn lemma_chunks_from_6(m: MDLXContents, b: Seq<u8>, o: int)
    requires
        chunk_wf::<GeosetChunk>(m.geoset_chunk),
        chunk_wf::<GeosetAnimationChunk>(m.geoset_animation_chunk),
        chunk_wf::<BoneChunk>(m.bone_chunk),
        chunk_wf::<LightChunk>(m.light_chunk),
        chunk_wf::<HelperChunk>(m.helper_chunk),
        chunk_wf::<AttachmentChunk>(m.attachment_chunk),
        chunk_wf::<PivotPointChunk>(m.pivot_point_chunk),
        chunk_wf::<ParticleEmitterChunk>(m.particle_emitter_chunk),
        chunk_wf::<ParticleEmitter2Chunk>(m.particle_emitter2_chunk),
        chunk_wf::<RibbonEmitterChunk>(m.ribbon_emitter_chunk),
        chunk_wf::<EventObjectChunk>(m.event_object_chunk),
        chunk_wf::<CameraChunk>(m.camera_chunk),
        chunk_wf::<CollisionShapeChunk>(m.collision_shape_chunk),
        chunk_wf::<MaterialChunk>(m.material_chunk),
        0 <= o,
        o + (chunk_block::<GeosetChunk>(GEOS_TAG, m.geoset_chunk) + (chunk_block::<GeosetAnimationChunk>(GEOA_TAG, m.geoset_animation_chunk) + (chunk_block::<BoneChunk>(BONE_TAG, m.bone_chunk) + (chunk_block::<LightChunk>(LITE_TAG, m.light_chunk) + (chunk_block::<HelperChunk>(HELP_TAG, m.helper_chunk) + (chunk_block::<AttachmentChunk>(ATCH_TAG, m.attachment_chunk) + (chunk_block::<PivotPointChunk>(PIVT_TAG, m.pivot_point_chunk) + (chunk_block::<ParticleEmitterChunk>(PREM_TAG, m.particle_emitter_chunk) + (chunk_block::<ParticleEmitter2Chunk>(PRE2_TAG, m.particle_emitter2_chunk) + (chunk_block::<RibbonEmitterChunk>(RIBB_TAG, m.ribbon_emitter_chunk) + (chunk_block::<EventObjectChunk>(EVTS_TAG, m.event_object_chunk) + (chunk_block::<CameraChunk>(CAMS_TAG, m.camera_chunk) + (chunk_block::<CollisionShapeChunk>(CLID_TAG, m.collision_shape_chunk) + chunk_block::<MaterialChunk>(MTLS_TAG, m.material_chunk)))))))))))))).len()
            == b.len(),
        b.subrange(o, b.len() as int)
            == chunk_block::<GeosetChunk>(GEOS_TAG, m.geoset_chunk) + (chunk_block::<GeosetAnimationChunk>(GEOA_TAG, m.geoset_animation_chunk) + (chunk_block::<BoneChunk>(BONE_TAG, m.bone_chunk) + (chunk_block::<LightChunk>(LITE_TAG, m.light_chunk) + (chunk_block::<HelperChunk>(HELP_TAG, m.helper_chunk) + (chunk_block::<AttachmentChunk>(ATCH_TAG, m.attachment_chunk) + (chunk_block::<PivotPointChunk>(PIVT_TAG, m.pivot_point_chunk) + (chunk_block::<ParticleEmitterChunk>(PREM_TAG, m.particle_emitter_chunk) + (chunk_block::<ParticleEmitter2Chunk>(PRE2_TAG, m.particle_emitter2_chunk) + (chunk_block::<RibbonEmitterChunk>(RIBB_TAG, m.ribbon_emitter_chunk) + (chunk_block::<EventObjectChunk>(EVTS_TAG, m.event_object_chunk) + (chunk_block::<CameraChunk>(CAMS_TAG, m.camera_chunk) + (chunk_block::<CollisionShapeChunk>(CLID_TAG, m.collision_shape_chunk) + chunk_block::<MaterialChunk>(MTLS_TAG, m.material_chunk))))))))))))),
    ensures
        parse_chunks(b, o, MDLXContents {
            geoset_chunk: None,
            geoset_animation_chunk: None,
            bone_chunk: None,
            light_chunk: None,
            helper_chunk: None,
            attachment_chunk: None,
            pivot_point_chunk: None,
            particle_emitter_chunk: None,
            particle_emitter2_chunk: None,
            ribbon_emitter_chunk: None,
            event_object_chunk: None,
            camera_chunk: None,
            collision_shape_chunk: None,
            material_chunk: None,
            ..m
        }) == Ok::<MDLXContents, FormatError>(m),
{
    lemma_split(b, o, chunk_block::<GeosetChunk>(GEOS_TAG, m.geoset_chunk), chunk_block::<GeosetAnimationChunk>(GEOA_TAG, m.geoset_animation_chunk) + (chunk_block::<BoneChunk>(BONE_TAG, m.bone_chunk) + (chunk_block::<LightChunk>(LITE_TAG, m.light_chunk) + (chunk_block::<HelperChunk>(HELP_TAG, m.helper_chunk) + (chunk_block::<AttachmentChunk>(ATCH_TAG, m.attachment_chunk) + (chunk_block::<PivotPointChunk>(PIVT_TAG, m.pivot_point_chunk) + (chunk_block::<ParticleEmitterChunk>(PREM_TAG, m.particle_emitter_chunk) + (chunk_block::<ParticleEmitter2Chunk>(PRE2_TAG, m.particle_emitter2_chunk) + (chunk_block::<RibbonEmitterChunk>(RIBB_TAG, m.ribbon_emitter_chunk) + (chunk_block::<EventObjectChunk>(EVTS_TAG, m.event_object_chunk) + (chunk_block::<CameraChunk>(CAMS_TAG, m.camera_chunk) + (chunk_block::<CollisionShapeChunk>(CLID_TAG, m.collision_shape_chunk) + chunk_block::<MaterialChunk>(MTLS_TAG, m.material_chunk)))))))))))));
    lemma_chunk_block_round_trip::<GeosetChunk>(GEOS_TAG, m.geoset_chunk, b, o);
    lemma_chunks_from_7(m, b, o + (chunk_block::<GeosetChunk>(GEOS_TAG, m.geoset_chunk)).len());
    if m.geoset_chunk is None {
        assert(MDLXContents {
            geoset_chunk: None,
            geoset_animation_chunk: None,
            bone_chunk: None,
            light_chunk: None,
            helper_chunk: None,
            attachment_chunk: None,
            pivot_point_chunk: None,
            particle_emitter_chunk: None,
            particle_emitter2_chunk: None,
            ribbon_emitter_chunk: None,
            event_object_chunk: None,
            camera_chunk: None,
            collision_shape_chunk: None,
            material_chunk: None,
            ..m
        } == MDLXContents {
            geoset_animation_chunk: None,
            bone_chunk: None,
            light_chunk: None,
            helper_chunk: None,
            attachment_chunk: None,
            pivot_point_chunk: None,
            particle_emitter_chunk: None,
            particle_emitter2_chunk: None,
            ribbon_emitter_chunk: None,
            event_object_chunk: None,
            camera_chunk: None,
            collision_shape_chunk: None,
            material_chunk: None,
            ..m
        });
    }
}

/// The chunks of a well-formed model from the `TXAN` chunk on decode back into it.
proof fn lemma_chunks_from_5(m: MDLXContents, b: Seq<u8>, o: int)
    requires
        chunk_wf::<TextureAnimationChunk>(m.texture_animation_chunk),
        chunk_wf::<GeosetChunk>(m.geoset_chunk),
        chunk_wf::<GeosetAnimationChunk>(m.geoset_animation_chunk),
        chunk_wf::<BoneChunk>(m.bone_chunk),
        chunk_wf::<LightChunk>(m.light_chunk),
        chunk_wf::<HelperChunk>(m.helper_chunk),
        chunk_wf::<AttachmentChunk>(m.attachment_chunk),
        chunk_wf::<PivotPointChunk>(m.pivot_point_chunk),
        chunk_wf::<ParticleEmitterChunk>(m.particle_emitter_chunk),
        chunk_wf::<ParticleEmitter2Chunk>(m.particle_emitter2_chunk),
        chunk_wf::<RibbonEmitterChunk>(m.ribbon_emitter_chunk),
        chunk_wf::<EventObjectChunk>(m.event_object_chunk),
        chunk_wf::<CameraChunk>(m.camera_chunk),
        chunk_wf::<CollisionShapeChunk>(m.collision_shape_chunk),
        chunk_wf::<MaterialChunk>(m.material_chunk),
        0 <= o,
        o + (chunk_block::<TextureAnimationChunk>(TXAN_TAG, m.texture_animation_chunk) + (chunk_block::<GeosetChunk>(GEOS_TAG, m.geoset_chunk) + (chunk_block::<GeosetAnimationChunk>(GEOA_TAG, m.geoset_animation_chunk) + (chunk_block::<BoneChunk>(BONE_TAG, m.bone_chunk) + (chunk_block::<LightChunk>(LITE_TAG, m.light_chunk) + (chunk_block::<HelperChunk>(HELP_TAG, m.helper_chunk) + (chunk_block::<AttachmentChunk>(ATCH_TAG, m.attachment_chunk) + (chunk_block::<PivotPointChunk>(PIVT_TAG, m.pivot_point_chunk) + (chunk_block::<ParticleEmitterChunk>(PREM_TAG, m.particle_emitter_chunk) + (chunk_block::<ParticleEmitter2Chunk>(PRE2_TAG, m.particle_emitter2_chunk) + (chunk_block::<RibbonEmitterChunk>(RIBB_TAG, m.ribbon_emitter_chunk) + (chunk_block::<EventObjectChunk>(EVTS_TAG, m.event_object_chunk) + (chunk_block::<CameraChunk>(CAMS_TAG, m.camera_chunk) + (chunk_block::<CollisionShapeChunk>(CLID_TAG, m.collision_shape_chunk) + chunk_block::<MaterialChunk>(MTLS_TAG, m.material_chunk))))))))))))))).len()
            == b.len(),
        b.subrange(o, b.len() as int)
            == chunk_block::<TextureAnimationChunk>(TXAN_TAG, m.texture_animation_chunk) + (chunk_block::<GeosetChunk>(GEOS_TAG, m.geoset_chunk) + (chunk_block::<GeosetAnimationChunk>(GEOA_TAG, m.geoset_animation_chunk) + (chunk_block::<BoneChunk>(BONE_TAG, m.bone_chunk) + (chunk_block::<LightChunk>(LITE_TAG, m.light_chunk) + (chunk_block::<HelperChunk>(HELP_TAG, m.helper_chunk) + (chunk_block::<AttachmentChunk>(ATCH_TAG, m.attachment_chunk) + (chunk_block::<PivotPointChunk>(PIVT_TAG, m.pivot_point_chunk) + (chunk_block::<ParticleEmitterChunk>(PREM_TAG, m.particle_emitter_chunk) + (chunk_block::<ParticleEmitter2Chunk>(PRE2_TAG, m.particle_emitter2_chunk) + (chunk_block::<RibbonEmitterChunk>(RIBB_TAG, m.ribbon_emitter_chunk) + (chunk_block::<EventObjectChunk>(EVTS_TAG, m.event_object_chunk) + (chunk_block::<CameraChunk>(CAMS_TAG, m.camera_chunk) + (chunk_block::<CollisionShapeChunk>(CLID_TAG, m.collision_shape_chunk) + chunk_block::<MaterialChunk>(MTLS_TAG, m.material_chunk)))))))))))))),
    ensures
        parse_chunks(b, o, MDLXContents {
            texture_animation_chunk: None,
            geoset_chunk: None,
            geoset_animation_chunk: None,
            bone_chunk: None,
            light_chunk: None,
            helper_chunk: None,
            attachment_chunk: None,
            pivot_point_chunk: None,
            particle_emitter_chunk: None,
            particle_emitter2_chunk: None,
            ribbon_emitter_chunk: None,
            event_object_chunk: None,
            camera_chunk: None,
            collision_shape_chunk: None,
            material_chunk: None,
            ..m
        }) == Ok::<MDLXContents, FormatError>(m),
{
    lemma_split(b, o, chunk_block::<TextureAnimationChunk>(TXAN_TAG, m.texture_animation_chunk), chunk_block::<GeosetChunk>(GEOS_TAG, m.geoset_chunk) + (chunk_block::<GeosetAnimationChunk>(GEOA_TAG, m.geoset_animation_chunk) + (chunk_block::<BoneChunk>(BONE_TAG, m.bone_chunk) + (chunk_block::<LightChunk>(LITE_TAG, m.light_chunk) + (chunk_block::<HelperChunk>(HELP_TAG, m.helper_chunk) + (chunk_block::<AttachmentChunk>(ATCH_TAG, m.attachment_chunk) + (chunk_block::<PivotPointChunk>(PIVT_TAG, m.pivot_point_chunk) + (chunk_block::<ParticleEmitterChunk>(PREM_TAG, m.particle_emitter_chunk) + (chunk_block::<ParticleEmitter2Chunk>(PRE2_TAG, m.particle_emitter2_chunk) + (chunk_block::<RibbonEmitterChunk>(RIBB_TAG, m.ribbon_emitter_chunk) + (chunk_block::<EventObjectChunk>(EVTS_TAG, m.event_object_chunk) + (chunk_block::<CameraChunk>(CAMS_TAG, m.camera_chunk) + (chunk_block::<CollisionShapeChunk>(CLID_TAG, m.collision_shape_chunk) + chunk_block::<MaterialChunk>(MTLS_TAG, m.material_chunk))))))))))))));
    lemma_chunk_block_round_trip::<TextureAnimationChunk>(TXAN_TAG, m.texture_animation_chunk, b, o);
    lemma_chunks_from_6(m, b, o + (chunk_block::<TextureAnimationChunk>(TXAN_TAG, m.texture_animation_chunk)).len());
    if m.texture_animation_chunk is None {
        assert(MDLXContents {
            texture_animation_chunk: None,
            geoset_chunk: None,
            geoset_animation_chunk: None,
            bone_chunk: None,
            light_chunk: None,
            helper_chunk: None,
            attachment_chunk: None,
            pivot_point_chunk: None,
            particle_emitter_chunk: None,
            particle_emitter2_chunk: None,
            ribbon_emitter_chunk: None,
            event_object_chunk: None,
            camera_chunk: None,
            collision_shape_chunk: None,
            material_chunk: None,
            ..m
        } == MDLXContents {
            geoset_chunk: None,
            geoset_animation_chunk: None,
            bone_chunk: None,
            light_chunk: None,
            helper_chunk: None,
            attachment_chunk: None,
            pivot_point_chunk: None,
            particle_emitter_chunk: None,
            particle_emitter2_chunk: None,
            ribbon_emitter_chunk: None,
            event_object_chunk: None,
            camera_chunk: None,
            collision_shape_chunk: None,
            material_chunk: None,
            ..m
        });
    }
}

/// The chunks of a well-formed model from the `TEXS` chunk on decode back into it.
proof fn lemma_chunks_from_4(m: MDLXContents, b: Seq<u8>, o: int)
    requires
        chunk_wf::<TextureChunk>(m.texture_chunk),
        chunk_wf::<TextureAnimationChunk>(m.texture_animation_chunk),
        chunk_wf::<GeosetChunk>(m.geoset_chunk),
        chunk_wf::<GeosetAnimationChunk>(m.geoset_animation_chunk),
        chunk_wf::<BoneChunk>(m.bone_chunk),
        chunk_wf::<LightChunk>(m.light_chunk),
        chunk_wf::<HelperChunk>(m.helper_chunk),
        chunk_wf::<AttachmentChunk>(m.attachment_chunk),
        chunk_wf::<PivotPointChunk>(m.pivot_point_chunk),
        chunk_wf::<ParticleEmitterChunk>(m.particle_emitter_chunk),
        chunk_wf::<ParticleEmitter2Chunk>(m.particle_emitter2_chunk),
        chunk_wf::<RibbonEmitterChunk>(m.ribbon_emitter_chunk),
        chunk_wf::<EventObjectChunk>(m.event_object_chunk),
        chunk_wf::<CameraChunk>(m.camera_chunk),
        chunk_wf::<CollisionShapeChunk>(m.collision_shape_chunk),
        chunk_wf::<MaterialChunk>(m.material_chunk),
        0 <= o,
        o + (chunk_block::<TextureChunk>(TEXS_TAG, m.texture_chunk) + (chunk_block::<TextureAnimationChunk>(TXAN_TAG, m.texture_animation_chunk) + (chunk_block::<GeosetChunk>(GEOS_TAG, m.geoset_chunk) + (chunk_block::<GeosetAnimationChunk>(GEOA_TAG, m.geoset_animation_chunk) + (chunk_block::<BoneChunk>(BONE_TAG, m.bone_chunk) + (chunk_block::<LightChunk>(LITE_TAG, m.light_chunk) + (chunk_block::<HelperChunk>(HELP_TAG, m.helper_chunk) + (chunk_block::<AttachmentChunk>(ATCH_TAG, m.attachment_chunk) + (chunk_block::<PivotPointChunk>(PIVT_TAG, m.pivot_point_chunk) + (chunk_block::<ParticleEmitterChunk>(PREM_TAG, m.particle_emitter_chunk) + (chunk_block::<ParticleEmitter2Chunk>(PRE2_TAG, m.particle_emitter2_chunk) + (chunk_block::<RibbonEmitterChunk>(RIBB_TAG, m.ribbon_emitter_chunk) + (chunk_block::<EventObjectChunk>(EVTS_TAG, m.event_object_chunk) + (chunk_block::<CameraChunk>(CAMS_TAG, m.camera_chunk) + (chunk_block::<CollisionShapeChunk>(CLID_TAG, m.collision_shape_chunk) + chunk_block::<MaterialChunk>(MTLS_TAG, m.material_chunk)))))))))))))))).len()
            == b.len(),
        b.subrange(o, b.len() as int)
            == chunk_block::<TextureChunk>(TEXS_TAG, m.texture_chunk) + (chunk_block::<TextureAnimationChunk>(TXAN_TAG, m.texture_animation_chunk) + (chunk_block::<GeosetChunk>(GEOS_TAG, m.geoset_chunk) + (chunk_block::<GeosetAnimationChunk>(GEOA_TAG, m.geoset_animation_chunk) + (chunk_block::<BoneChunk>(BONE_TAG, m.bone_chunk) + (chunk_block::<LightChunk>(LITE_TAG, m.light_chunk) + (chunk_block::<HelperChunk>(HELP_TAG, m.helper_chunk) + (chunk_block::<AttachmentChunk>(ATCH_TAG, m.attachment_chunk) + (chunk_block::<PivotPointChunk>(PIVT_TAG, m.pivot_point_chunk) + (chunk_block::<ParticleEmitterChunk>(PREM_TAG, m.particle_emitter_chunk) + (chunk_block::<ParticleEmitter2Chunk>(PRE2_TAG, m.particle_emitter2_chunk) + (chunk_block::<RibbonEmitterChunk>(RIBB_TAG, m.ribbon_emitter_chunk) + (chunk_block::<EventObjectChunk>(EVTS_TAG, m.event_object_chunk) + (chunk_block::<CameraChunk>(CAMS_TAG, m.camera_chunk) + (chunk_block::<CollisionShapeChunk>(CLID_TAG, m.collision_shape_chunk) + chunk_block::<MaterialChunk>(MTLS_TAG, m.material_chunk))))))))))))))),
    ensures
        parse_chunks(b, o, MDLXContents {
            texture_chunk: None,
            texture_animation_chunk: None,
            geoset_chunk: None,
            geoset_animation_chunk: None,
            bone_chunk: None,
            light_chunk: None,
            helper_chunk: None,
            attachment_chunk: None,
            pivot_point_chunk: None,
            particle_emitter_chunk: None,
            particle_emitter2_chunk: None,
            ribbon_emitter_chunk: None,
            event_object_chunk: None,
            camera_chunk: None,
            collision_shape_chunk: None,
            material_chunk: None,
            ..m
        }) == Ok::<MDLXContents, FormatError>(m),
{
    lemma_split(b, o, chunk_block::<TextureChunk>(TEXS_TAG, m.texture_chunk), chunk_block::<TextureAnimationChunk>(TXAN_TAG, m.texture_animation_chunk) + (chunk_block::<GeosetChunk>(GEOS_TAG, m.geoset_chunk) + (chunk_block::<GeosetAnimationChunk>(GEOA_TAG, m.geoset_animation_chunk) + (chunk_block::<BoneChunk>(BONE_TAG, m.bone_chunk) + (chunk_block::<LightChunk>(LITE_TAG, m.light_chunk) + (chunk_block::<HelperChunk>(HELP_TAG, m.helper_chunk) + (chunk_block::<AttachmentChunk>(ATCH_TAG, m.attachment_chunk) + (chunk_block::<PivotPointChunk>(PIVT_TAG, m.pivot_point_chunk) + (chunk_block::<ParticleEmitterChunk>(PREM_TAG, m.particle_emitter_chunk) + (chunk_block::<ParticleEmitter2Chunk>(PRE2_TAG, m.particle_emitter2_chunk) + (chunk_block::<RibbonEmitterChunk>(RIBB_TAG, m.ribbon_emitter_chunk) + (chunk_block::<EventObjectChunk>(EVTS_TAG, m.event_object_chunk) + (chunk_block::<CameraChunk>(CAMS_TAG, m.camera_chunk) + (chunk_block::<CollisionShapeChunk>(CLID_TAG, m.collision_shape_chunk) + chunk_block::<MaterialChunk>(MTLS_TAG, m.material_chunk)))))))))))))));
    lemma_chunk_block_round_trip::<TextureChunk>(TEXS_TAG, m.texture_chunk, b, o);
    lemma_chunks_from_5(m, b, o + (chunk_block::<TextureChunk>(TEXS_TAG, m.texture_chunk)).len());
    if m.texture_chunk is None {
        assert(MDLXContents {
            texture_chunk: None,
            texture_animation_chunk: None,
            geoset_chunk: None,
            geoset_animation_chunk: None,
            bone_chunk: None,
            light_chunk: None,
            helper_chunk: None,
            attachment_chunk: None,
            pivot_point_chunk: None,
            particle_emitter_chunk: None,
            particle_emitter2_chunk: None,
            ribbon_emitter_chunk: None,
            event_object_chunk: None,
            camera_chunk: None,
            collision_shape_chunk: None,
            material_chunk: None,
            ..m
        } == MDLXContents {
            texture_animation_chunk: None,
            geoset_chunk: None,
            geoset_animation_chunk: None,
            bone_chunk: None,
            light_chunk: None,
            helper_chunk: None,
            attachment_chunk: None,
            pivot_point_chunk: None,
            particle_emitter_chunk: None,
            particle_emitter2_chunk: None,
            ribbon_emitter_chunk: None,
            event_object_chunk: None,
            camera_chunk: None,
            collision_shape_chunk: None,
            material_chunk: None,
            ..m
        });
    }
}

/// The chunks of a well-formed model from the `GLBS` chunk on decode back into it.
proof fn lemma_chunks_from_3(m: MDLXContents, b: Seq<u8>, o: int)
    requires
        chunk_wf::<GlobalSequenceChunk>(m.global_sequence_chunk),
        chunk_wf::<TextureChunk>(m.texture_chunk),
        chunk_wf::<TextureAnimationChunk>(m.texture_animation_chunk),
        chunk_wf::<GeosetChunk>(m.geoset_chunk),
        chunk_wf::<GeosetAnimationChunk>(m.geoset_animation_chunk),
        chunk_wf::<BoneChunk>(m.bone_chunk),
        chunk_wf::<LightChunk>(m.light_chunk),
        chunk_wf::<HelperChunk>(m.helper_chunk),
        chunk_wf::<AttachmentChunk>(m.attachment_chunk),
        chunk_wf::<PivotPointChunk>(m.pivot_point_chunk),
        chunk_wf::<ParticleEmitterChunk>(m.particle_emitter_chunk),
        chunk_wf::<ParticleEmitter2Chunk>(m.particle_emitter2_chunk),
        chunk_wf::<RibbonEmitterChunk>(m.ribbon_emitter_chunk),
        chunk_wf::<EventObjectChunk>(m.event_object_chunk),
        chunk_wf::<CameraChunk>(m.camera_chunk),
        chunk_wf::<CollisionShapeChunk>(m.collision_shape_chunk),
        chunk_wf::<MaterialChunk>(m.material_chunk),
        0 <= o,
        o + (chunk_block::<GlobalSequenceChunk>(GLBS_TAG, m.global_sequence_chunk) + (chunk_block::<TextureChunk>(TEXS_TAG, m.texture_chunk) + (chunk_block::<TextureAnimationChunk>(TXAN_TAG, m.texture_animation_chunk) + (chunk_block::<GeosetChunk>(GEOS_TAG, m.geoset_chunk) + (chunk_block::<GeosetAnimationChunk>(GEOA_TAG, m.geoset_animation_chunk) + (chunk_block::<BoneChunk>(BONE_TAG, m.bone_chunk) + (chunk_block::<LightChunk>(LITE_TAG, m.light_chunk) + (chunk_block::<HelperChunk>(HELP_TAG, m.helper_chunk) + (chunk_block::<AttachmentChunk>(ATCH_TAG, m.attachment_chunk) + (chunk_block::<PivotPointChunk>(PIVT_TAG, m.pivot_point_chunk) + (chunk_block::<ParticleEmitterChunk>(PREM_TAG, m.particle_emitter_chunk) + (chunk_block::<ParticleEmitter2Chunk>(PRE2_TAG, m.particle_emitter2_chunk) + (chunk_block::<RibbonEmitterChunk>(RIBB_TAG, m.ribbon_emitter_chunk) + (chunk_block::<EventObjectChunk>(EVTS_TAG, m.event_object_chunk) + (chunk_block::<CameraChunk>(CAMS_TAG, m.camera_chunk) + (chunk_block::<CollisionShapeChunk>(CLID_TAG, m.collision_shape_chunk) + chunk_block::<MaterialChunk>(MTLS_TAG, m.material_chunk))))))))))))))))).len()
            == b.len(),
        b.subrange(o, b.len() as int)
            == chunk_block::<GlobalSequenceChunk>(GLBS_TAG, m.global_sequence_chunk) + (chunk_block::<TextureChunk>(TEXS_TAG, m.texture_chunk) + (chunk_block::<TextureAnimationChunk>(TXAN_TAG, m.texture_animation_chunk) + (chunk_block::<GeosetChunk>(GEOS_TAG, m.geoset_chunk) + (chunk_block::<GeosetAnimationChunk>(GEOA_TAG, m.geoset_animation_chunk) + (chunk_block::<BoneChunk>(BONE_TAG, m.bone_chunk) + (chunk_block::<LightChunk>(LITE_TAG, m.light_chunk) + (chunk_block::<HelperChunk>(HELP_TAG, m.helper_chunk) + (chunk_block::<AttachmentChunk>(ATCH_TAG, m.attachment_chunk) + (chunk_block::<PivotPointChunk>(PIVT_TAG, m.pivot_point_chunk) + (chunk_block::<ParticleEmitterChunk>(PREM_TAG, m.particle_emitter_chunk) + (chunk_block::<ParticleEmitter2Chunk>(PRE2_TAG, m.particle_emitter2_chunk) + (chunk_block::<RibbonEmitterChunk>(RIBB_TAG, m.ribbon_emitter_chunk) + (chunk_block::<EventObjectChunk>(EVTS_TAG, m.event_object_chunk) + (chunk_block::<CameraChunk>(CAMS_TAG, m.camera_chunk) + (chunk_block::<CollisionShapeChunk>(CLID_TAG, m.collision_shape_chunk) + chunk_block::<MaterialChunk>(MTLS_TAG, m.material_chunk)))))))))))))))),
    ensures
        parse_chunks(b, o, MDLXContents {
            global_sequence_chunk: None,
            texture_chunk: None,
            texture_animation_chunk: None,
            geoset_chunk: None,
            geoset_animation_chunk: None,
            bone_chunk: None,
            light_chunk: None,
            helper_chunk: None,
            attachment_chunk: None,
            pivot_point_chunk: None,
            particle_emitter_chunk: None,
            particle_emitter2_chunk: None,
            ribbon_emitter_chunk: None,
            event_object_chunk: None,
            camera_chunk: None,
            collision_shape_chunk: None,
            material_chunk: None,
            ..m
        }) == Ok::<MDLXContents, FormatError>(m),
{
    lemma_split(b, o, chunk_block::<GlobalSequenceChunk>(GLBS_TAG, m.global_sequence_chunk), chunk_block::<TextureChunk>(TEXS_TAG, m.texture_chunk) + (chunk_block::<TextureAnimationChunk>(TXAN_TAG, m.texture_animation_chunk) + (chunk_block::<GeosetChunk>(GEOS_TAG, m.geoset_chunk) + (chunk_block::<GeosetAnimationChunk>(GEOA_TAG, m.geoset_animation_chunk) + (chunk_block::<BoneChunk>(BONE_TAG, m.bone_chunk) + (chunk_block::<LightChunk>(LITE_TAG, m.light_chunk) + (chunk_block::<HelperChunk>(HELP_TAG, m.helper_chunk) + (chunk_block::<AttachmentChunk>(ATCH_TAG, m.attachment_chunk) + (chunk_block::<PivotPointChunk>(PIVT_TAG, m.pivot_point_chunk) + (chunk_block::<ParticleEmitterChunk>(PREM_TAG, m.particle_emitter_chunk) + (chunk_block::<ParticleEmitter2Chunk>(PRE2_TAG, m.particle_emitter2_chunk) + (chunk_block::<RibbonEmitterChunk>(RIBB_TAG, m.ribbon_emitter_chunk) + (chunk_block::<EventObjectChunk>(EVTS_TAG, m.event_object_chunk) + (chunk_block::<CameraChunk>(CAMS_TAG, m.camera_chunk) + (chunk_block::<CollisionShapeChunk>(CLID_TAG, m.collision_shape_chunk) + chunk_block::<MaterialChunk>(MTLS_TAG, m.material_chunk))))))))))))))));
    lemma_chunk_block_round_trip::<GlobalSequenceChunk>(GLBS_TAG, m.global_sequence_chunk, b, o);
    lemma_chunks_from_4(m, b, o + (chunk_block::<GlobalSequenceChunk>(GLBS_TAG, m.global_sequence_chunk)).len());
    if m.global_sequence_chunk is None {
        assert(MDLXContents {
            global_sequence_chunk: None,
            texture_chunk: None,
            texture_animation_chunk: None,
            geoset_chunk: None,
            geoset_animation_chunk: None,
            bone_chunk: None,
            light_chunk: None,
            helper_chunk: None,
            attachment_chunk: None,
            pivot_point_chunk: None,
            particle_emitter_chunk: None,
            particle_emitter2_chunk: None,
            ribbon_emitter_chunk: None,
            event_object_chunk: None,
            camera_chunk: None,
            collision_shape_chunk: None,
            material_chunk: None,
            ..m
        } == MDLXContents {
            texture_chunk: None,
            texture_animation_chunk: None,
            geoset_chunk: None,
            geoset_animation_chunk: None,
            bone_chunk: None,
            light_chunk: None,
            helper_chunk: None,
            attachment_chunk: None,
            pivot_point_chunk: None,
            particle_emitter_chunk: None,
            particle_emitter2_chunk: None,
            ribbon_emitter_chunk: None,
            event_object_chunk: None,
            camera_chunk: None,
            collision_shape_chunk: None,
            material_chunk: None,
            ..m
        });
    }
}

/// The chunks of a well-formed model from the `SEQS` chunk on decode back into it.
proof fn lemma_chunks_from_2(m: MDLXContents, b: Seq<u8>, o: int)
    requires
        chunk_wf::<SequenceChunk>(m.sequence_chunk),
        chunk_wf::<GlobalSequenceChunk>(m.global_sequence_chunk),
        chunk_wf::<TextureChunk>(m.texture_chunk),
        chunk_wf::<TextureAnimationChunk>(m.texture_animation_chunk),
        chunk_wf::<GeosetChunk>(m.geoset_chunk),
        chunk_wf::<GeosetAnimationChunk>(m.geoset_animation_chunk),
        chunk_wf::<BoneChunk>(m.bone_chunk),
        chunk_wf::<LightChunk>(m.light_chunk),
        chunk_wf::<HelperChunk>(m.helper_chunk),
        chunk_wf::<AttachmentChunk>(m.attachment_chunk),
        chunk_wf::<PivotPointChunk>(m.pivot_point_chunk),
        chunk_wf::<ParticleEmitterChunk>(m.particle_emitter_chunk),
        chunk_wf::<ParticleEmitter2Chunk>(m.particle_emitter2_chunk),
        chunk_wf::<RibbonEmitterChunk>(m.ribbon_emitter_chunk),
        chunk_wf::<EventObjectChunk>(m.event_object_chunk),
        chunk_wf::<CameraChunk>(m.camera_chunk),
        chunk_wf::<CollisionShapeChunk>(m.collision_shape_chunk),
        chunk_wf::<MaterialChunk>(m.material_chunk),
        0 <= o,
        o + (chunk_block::<SequenceChunk>(SEQS_TAG, m.sequence_chunk) + (chunk_block::<GlobalSequenceChunk>(GLBS_TAG, m.global_sequence_chunk) + (chunk_block::<TextureChunk>(TEXS_TAG, m.texture_chunk) + (chunk_block::<TextureAnimationChunk>(TXAN_TAG, m.texture_animation_chunk) + (chunk_block::<GeosetChunk>(GEOS_TAG, m.geoset_chunk) + (chunk_block::<GeosetAnimationChunk>(GEOA_TAG, m.geoset_animation_chunk) + (chunk_block::<BoneChunk>(BONE_TAG, m.bone_chunk) + (chunk_block::<LightChunk>(LITE_TAG, m.light_chunk) + (chunk_block::<HelperChunk>(HELP_TAG, m.helper_chunk) + (chunk_block::<AttachmentChunk>(ATCH_TAG, m.attachment_chunk) + (chunk_block::<PivotPointChunk>(PIVT_TAG, m.pivot_point_chunk) + (chunk_block::<ParticleEmitterChunk>(PREM_TAG, m.particle_emitter_chunk) + (chunk_block::<ParticleEmitter2Chunk>(PRE2_TAG, m.particle_emitter2_chunk) + (chunk_block::<RibbonEmitterChunk>(RIBB_TAG, m.ribbon_emitter_chunk) + (chunk_block::<EventObjectChunk>(EVTS_TAG, m.event_object_chunk) + (chunk_block::<CameraChunk>(CAMS_TAG, m.camera_chunk) + (chunk_block::<CollisionShapeChunk>(CLID_TAG, m.collision_shape_chunk) + chunk_block::<MaterialChunk>(MTLS_TAG, m.material_chunk)))))))))))))))))).len()
            == b.len(),
        b.subrange(o, b.len() as int)
            == chunk_block::<SequenceChunk>(SEQS_TAG, m.sequence_chunk) + (chunk_block::<GlobalSequenceChunk>(GLBS_TAG, m.global_sequence_chunk) + (chunk_block::<TextureChunk>(TEXS_TAG, m.texture_chunk) + (chunk_block::<TextureAnimationChunk>(TXAN_TAG, m.texture_animation_chunk) + (chunk_block::<GeosetChunk>(GEOS_TAG, m.geoset_chunk) + (chunk_block::<GeosetAnimationChunk>(GEOA_TAG, m.geoset_animation_chunk) + (chunk_block::<BoneChunk>(BONE_TAG, m.bone_chunk) + (chunk_block::<LightChunk>(LITE_TAG, m.light_chunk) + (chunk_block::<HelperChunk>(HELP_TAG, m.helper_chunk) + (chunk_block::<AttachmentChunk>(ATCH_TAG, m.attachment_chunk) + (chunk_block::<PivotPointChunk>(PIVT_TAG, m.pivot_point_chunk) + (chunk_block::<ParticleEmitterChunk>(PREM_TAG, m.particle_emitter_chunk) + (chunk_block::<ParticleEmitter2Chunk>(PRE2_TAG, m.particle_emitter2_chunk) + (chunk_block::<RibbonEmitterChunk>(RIBB_TAG, m.ribbon_emitter_chunk) + (chunk_block::<EventObjectChunk>(EVTS_TAG, m.event_object_chunk) + (chunk_block::<CameraChunk>(CAMS_TAG, m.camera_chunk) + (chunk_block::<CollisionShapeChunk>(CLID_TAG, m.collision_shape_chunk) + chunk_block::<MaterialChunk>(MTLS_TAG, m.material_chunk))))))))))))))))),
    ensures
        parse_chunks(b, o, MDLXContents {
            sequence_chunk: None,
            global_sequence_chunk: None,
            texture_chunk: None,
            texture_animation_chunk: None,
            geoset_chunk: None,
            geoset_animation_chunk: None,
            bone_chunk: None,
            light_chunk: None,
            helper_chunk: None,
            attachment_chunk: None,
            pivot_point_chunk: None,
            particle_emitter_chunk: None,
            particle_emitter2_chunk: None,
            ribbon_emitter_chunk: None,
            event_object_chunk: None,
            camera_chunk: None,
            collision_shape_chunk: None,
            material_chunk: None,
            ..m
        }) == Ok::<MDLXContents, FormatError>(m),
{
    lemma_split(b, o, chunk_block::<SequenceChunk>(SEQS_TAG, m.sequence_chunk), chunk_block::<GlobalSequenceChunk>(GLBS_TAG, m.global_sequence_chunk) + (chunk_block::<TextureChunk>(TEXS_TAG, m.texture_chunk) + (chunk_block::<TextureAnimationChunk>(TXAN_TAG, m.texture_animation_chunk) + (chunk_block::<GeosetChunk>(GEOS_TAG, m.geoset_chunk) + (chunk_block::<GeosetAnimationChunk>(GEOA_TAG, m.geoset_animation_chunk) + (chunk_block::<BoneChunk>(BONE_TAG, m.bone_chunk) + (chunk_block::<LightChunk>(LITE_TAG, m.light_chunk) + (chunk_block::<HelperChunk>(HELP_TAG, m.helper_chunk) + (chunk_block::<AttachmentChunk>(ATCH_TAG, m.attachment_chunk) + (chunk_block::<PivotPointChunk>(PIVT_TAG, m.pivot_point_chunk) + (chunk_block::<ParticleEmitterChunk>(PREM_TAG, m.particle_emitter_chunk) + (chunk_block::<ParticleEmitter2Chunk>(PRE2_TAG, m.particle_emitter2_chunk) + (chunk_block::<RibbonEmitterChunk>(RIBB_TAG, m.ribbon_emitter_chunk) + (chunk_block::<EventObjectChunk>(EVTS_TAG, m.event_object_chunk) + (chunk_block::<CameraChunk>(CAMS_TAG, m.camera_chunk) + (chunk_block::<CollisionShapeChunk>(CLID_TAG, m.collision_shape_chunk) + chunk_block::<MaterialChunk>(MTLS_TAG, m.material_chunk)))))))))))))))));
    lemma_chunk_block_round_trip::<SequenceChunk>(SEQS_TAG, m.sequence_chunk, b, o);
    lemma_chunks_from_3(m, b, o + (chunk_block::<SequenceChunk>(SEQS_TAG, m.sequence_chunk)).len());
    if m.sequence_chunk is None {
        assert(MDLXContents {
            sequence_chunk: None,
            global_sequence_chunk: None,
            texture_chunk: None,
            texture_animation_chunk: None,
            geoset_chunk: None,
            geoset_animation_chunk: None,
            bone_chunk: None,
            light_chunk: None,
            helper_chunk: None,
            attachment_chunk: None,
            pivot_point_chunk: None,
            particle_emitter_chunk: None,
            particle_emitter2_chunk: None,
            ribbon_emitter_chunk: None,
            event_object_chunk: None,
            camera_chunk: None,
            collision_shape_chunk: None,
            material_chunk: None,
            ..m
        } == MDLXContents {
            global_sequence_chunk: None,
            texture_chunk: None,
            texture_animation_chunk: None,
            geoset_chunk: None,
            geoset_animation_chunk: None,
            bone_chunk: None,
            light_chunk: None,
            helper_chunk: None,
            attachment_chunk: None,
            pivot_point_chunk: None,
            particle_emitter_chunk: None,
            particle_emitter2_chunk: None,
            ribbon_emitter_chunk: None,
            event_object_chunk: None,
            camera_chunk: None,
            collision_shape_chunk: None,
            material_chunk: None,
            ..m
        });
    }
}

/// The chunks of a well-formed model from the `MODL` chunk on decode back into it.
proof fn lemma_chunks_from_1(m: MDLXContents, b: Seq<u8>, o: int)
    requires
        chunk_wf::<ModelChunk>(m.model_chunk),
        chunk_wf::<SequenceChunk>(m.sequence_chunk),
        chunk_wf::<GlobalSequenceChunk>(m.global_sequence_chunk),
        chunk_wf::<TextureChunk>(m.texture_chunk),
        chunk_wf::<TextureAnimationChunk>(m.texture_animation_chunk),
        chunk_wf::<GeosetChunk>(m.geoset_chunk),
        chunk_wf::<GeosetAnimationChunk>(m.geoset_animation_chunk),
        chunk_wf::<BoneChunk>(m.bone_chunk),
        chunk_wf::<LightChunk>(m.light_chunk),
        chunk_wf::<HelperChunk>(m.helper_chunk),
        chunk_wf::<AttachmentChunk>(m.attachment_chunk),
        chunk_wf::<PivotPointChunk>(m.pivot_point_chunk),
        chunk_wf::<ParticleEmitterChunk>(m.particle_emitter_chunk),
        chunk_wf::<ParticleEmitter2Chunk>(m.particle_emitter2_chunk),
        chunk_wf::<RibbonEmitterChunk>(m.ribbon_emitter_chunk),
        chunk_wf::<EventObjectChunk>(m.event_object_chunk),
        chunk_wf::<CameraChunk>(m.camera_chunk),
        chunk_wf::<CollisionShapeChunk>(m.collision_shape_chunk),
        chunk_wf::<MaterialChunk>(m.material_chunk),
        0 <= o,
        o + (chunk_block::<ModelChunk>(MODL_TAG, m.model_chunk) + (chunk_block::<SequenceChunk>(SEQS_TAG, m.sequence_chunk) + (chunk_block::<GlobalSequenceChunk>(GLBS_TAG, m.global_sequence_chunk) + (chunk_block::<TextureChunk>(TEXS_TAG, m.texture_chunk) + (chunk_block::<TextureAnimationChunk>(TXAN_TAG, m.texture_animation_chunk) + (chunk_block::<GeosetChunk>(GEOS_TAG, m.geoset_chunk) + (chunk_block::<GeosetAnimationChunk>(GEOA_TAG, m.geoset_animation_chunk) + (chunk_block::<BoneChunk>(BONE_TAG, m.bone_chunk) + (chunk_block::<LightChunk>(LITE_TAG, m.light_chunk) + (chunk_block::<HelperChunk>(HELP_TAG, m.helper_chunk) + (chunk_block::<AttachmentChunk>(ATCH_TAG, m.attachment_chunk) + (chunk_block::<PivotPointChunk>(PIVT_TAG, m.pivot_point_chunk) + (chunk_block::<ParticleEmitterChunk>(PREM_TAG, m.particle_emitter_chunk) + (chunk_block::<ParticleEmitter2Chunk>(PRE2_TAG, m.particle_emitter2_chunk) + (chunk_block::<RibbonEmitterChunk>(RIBB_TAG, m.ribbon_emitter_chunk) + (chunk_block::<EventObjectChunk>(EVTS_TAG, m.event_object_chunk) + (chunk_block::<CameraChunk>(CAMS_TAG, m.camera_chunk) + (chunk_block::<CollisionShapeChunk>(CLID_TAG, m.collision_shape_chunk) + chunk_block::<MaterialChunk>(MTLS_TAG, m.material_chunk))))))))))))))))))).len()
            == b.len(),
        b.subrange(o, b.len() as int)
            == chunk_block::<ModelChunk>(MODL_TAG, m.model_chunk) + (chunk_block::<SequenceChunk>(SEQS_TAG, m.sequence_chunk) + (chunk_block::<GlobalSequenceChunk>(GLBS_TAG, m.global_sequence_chunk) + (chunk_block::<TextureChunk>(TEXS_TAG, m.texture_chunk) + (chunk_block::<TextureAnimationChunk>(TXAN_TAG, m.texture_animation_chunk) + (chunk_block::<GeosetChunk>(GEOS_TAG, m.geoset_chunk) + (chunk_block::<GeosetAnimationChunk>(GEOA_TAG, m.geoset_animation_chunk) + (chunk_block::<BoneChunk>(BONE_TAG, m.bone_chunk) + (chunk_block::<LightChunk>(LITE_TAG, m.light_chunk) + (chunk_block::<HelperChunk>(HELP_TAG, m.helper_chunk) + (chunk_block::<AttachmentChunk>(ATCH_TAG, m.attachment_chunk) + (chunk_block::<PivotPointChunk>(PIVT_TAG, m.pivot_point_chunk) + (chunk_block::<ParticleEmitterChunk>(PREM_TAG, m.particle_emitter_chunk) + (chunk_block::<ParticleEmitter2Chunk>(PRE2_TAG, m.particle_emitter2_chunk) + (chunk_block::<RibbonEmitterChunk>(RIBB_TAG, m.ribbon_emitter_chunk) + (chunk_block::<EventObjectChunk>(EVTS_TAG, m.event_object_chunk) + (chunk_block::<CameraChunk>(CAMS_TAG, m.camera_chunk) + (chunk_block::<CollisionShapeChunk>(CLID_TAG, m.collision_shape_chunk) + chunk_block::<MaterialChunk>(MTLS_TAG, m.material_chunk)))))))))))))))))),
    ensures
        parse_chunks(b, o, MDLXContents {
            model_chunk: None,
            sequence_chunk: None,
            global_sequence_chunk: None,
            texture_chunk: None,
            texture_animation_chunk: None,
            geoset_chunk: None,
            geoset_animation_chunk: None,
            bone_chunk: None,
            light_chunk: None,
            helper_chunk: None,
            attachment_chunk: None,
            pivot_point_chunk: None,
            particle_emitter_chunk: None,
            particle_emitter2_chunk: None,
            ribbon_emitter_chunk: None,
            event_object_chunk: None,
            camera_chunk: None,
            collision_shape_chunk: None,
            material_chunk: None,
            ..m
        }) == Ok::<MDLXContents, FormatError>(m),
{
    lemma_split(b, o, chunk_block::<ModelChunk>(MODL_TAG, m.model_chunk), chunk_block::<SequenceChunk>(SEQS_TAG, m.sequence_chunk) + (chunk_block::<GlobalSequenceChunk>(GLBS_TAG, m.global_sequence_chunk) + (chunk_block::<TextureChunk>(TEXS_TAG, m.texture_chunk) + (chunk_block::<TextureAnimationChunk>(TXAN_TAG, m.texture_animation_chunk) + (chunk_block::<GeosetChunk>(GEOS_TAG, m.geoset_chunk) + (chunk_block::<GeosetAnimationChunk>(GEOA_TAG, m.geoset_animation_chunk) + (chunk_block::<BoneChunk>(BONE_TAG, m.bone_chunk) + (chunk_block::<LightChunk>(LITE_TAG, m.light_chunk) + (chunk_block::<HelperChunk>(HELP_TAG, m.helper_chunk) + (chunk_block::<AttachmentChunk>(ATCH_TAG, m.attachment_chunk) + (chunk_block::<PivotPointChunk>(PIVT_TAG, m.pivot_point_chunk) + (chunk_block::<ParticleEmitterChunk>(PREM_TAG, m.particle_emitter_chunk) + (chunk_block::<ParticleEmitter2Chunk>(PRE2_TAG, m.particle_emitter2_chunk) + (chunk_block::<RibbonEmitterChunk>(RIBB_TAG, m.ribbon_emitter_chunk) + (chunk_block::<EventObjectChunk>(EVTS_TAG, m.event_object_chunk) + (chunk_block::<CameraChunk>(CAMS_TAG, m.camera_chunk) + (chunk_block::<CollisionShapeChunk>(CLID_TAG, m.collision_shape_chunk) + chunk_block::<MaterialChunk>(MTLS_TAG, m.material_chunk))))))))))))))))));
    lemma_chunk_block_round_trip::<ModelChunk>(MODL_TAG, m.model_chunk, b, o);
    lemma_chunks_from_2(m, b, o + (chunk_block::<ModelChunk>(MODL_TAG, m.model_chunk)).len());
    if m.model_chunk is None {
        assert(MDLXContents {
            model_chunk: None,
            sequence_chunk: None,
            global_sequence_chunk: None,
            texture_chunk: None,
            texture_animation_chunk: None,
            geoset_chunk: None,
            geoset_animation_chunk: None,
            bone_chunk: None,
            light_chunk: None,
            helper_chunk: None,
            attachment_chunk: None,
            pivot_point_chunk: None,
            particle_emitter_chunk: None,
            particle_emitter2_chunk: None,
            ribbon_emitter_chunk: None,
            event_object_chunk: None,
            camera_chunk: None,
            collision_shape_chunk: None,
            material_chunk: None,
            ..m
        } == MDLXContents {
            sequence_chunk: None,
            global_sequence_chunk: None,
            texture_chunk: None,
            texture_animation_chunk: None,
            geoset_chunk: None,
            geoset_animation_chunk: None,
            bone_chunk: None,
            light_chunk: None,
            helper_chunk: None,
            attachment_chunk: None,
            pivot_point_chunk: None,
            particle_emitter_chunk: None,
            particle_emitter2_chunk: None,
            ribbon_emitter_chunk: None,
            event_object_chunk: None,
            camera_chunk: None,
            collision_shape_chunk: None,
            material_chunk: None,
            ..m
        });
    }
}

/// The chunks of a well-formed model, written in their fixed order, decode
/// back into it.
proof fn lemma_chunks_from_0(m: MDLXContents, b: Seq<u8>, o: int)
    requires
        chunk_wf::<VersionChunk>(m.version_chunk),
        chunk_wf::<ModelChunk>(m.model_chunk),
        chunk_wf::<SequenceChunk>(m.sequence_chunk),
        chunk_wf::<GlobalSequenceChunk>(m.global_sequence_chunk),
        chunk_wf::<TextureChunk>(m.texture_chunk),
        chunk_wf::<TextureAnimationChunk>(m.texture_animation_chunk),
        chunk_wf::<GeosetChunk>(m.geoset_chunk),
        chunk_wf::<GeosetAnimationChunk>(m.geoset_animation_chunk),
        chunk_wf::<BoneChunk>(m.bone_chunk),
        chunk_wf::<LightChunk>(m.light_chunk),
        chunk_wf::<HelperChunk>(m.helper_chunk),
        chunk_wf::<AttachmentChunk>(m.attachment_chunk),
        chunk_wf::<PivotPointChunk>(m.pivot_point_chunk),
        chunk_wf::<ParticleEmitterChunk>(m.particle_emitter_chunk),
        chunk_wf::<ParticleEmitter2Chunk>(m.particle_emitter2_chunk),
        chunk_wf::<RibbonEmitterChunk>(m.ribbon_emitter_chunk),
        chunk_wf::<EventObjectChunk>(m.event_object_chunk),
        chunk_wf::<CameraChunk>(m.camera_chunk),
        chunk_wf::<CollisionShapeChunk>(m.collision_shape_chunk),
        chunk_wf::<MaterialChunk>(m.material_chunk),
        0 <= o,
        o + (chunk_block::<VersionChunk>(VERS_TAG, m.version_chunk) + (chunk_block::<ModelChunk>(MODL_TAG, m.model_chunk) + (chunk_block::<SequenceChunk>(SEQS_TAG, m.sequence_chunk) + (chunk_block::<GlobalSequenceChunk>(GLBS_TAG, m.global_sequence_chunk) + (chunk_block::<TextureChunk>(TEXS_TAG, m.texture_chunk) + (chunk_block::<TextureAnimationChunk>(TXAN_TAG, m.texture_animation_chunk) + (chunk_block::<GeosetChunk>(GEOS_TAG, m.geoset_chunk) + (chunk_block::<GeosetAnimationChunk>(GEOA_TAG, m.geoset_animation_chunk) + (chunk_block::<BoneChunk>(BONE_TAG, m.bone_chunk) + (chunk_block::<LightChunk>(LITE_TAG, m.light_chunk) + (chunk_block::<HelperChunk>(HELP_TAG, m.helper_chunk) + (chunk_block::<AttachmentChunk>(ATCH_TAG, m.attachment_chunk) + (chunk_block::<PivotPointChunk>(PIVT_TAG, m.pivot_point_chunk) + (chunk_block::<ParticleEmitterChunk>(PREM_TAG, m.particle_emitter_chunk) + (chunk_block::<ParticleEmitter2Chunk>(PRE2_TAG, m.particle_emitter2_chunk) + (chunk_block::<RibbonEmitterChunk>(RIBB_TAG, m.ribbon_emitter_chunk) + (chunk_block::<EventObjectChunk>(EVTS_TAG, m.event_object_chunk) + (chunk_block::<CameraChunk>(CAMS_TAG, m.camera_chunk) + (chunk_block::<CollisionShapeChunk>(CLID_TAG, m.collision_shape_chunk) + chunk_block::<MaterialChunk>(MTLS_TAG, m.material_chunk)))))))))))))))))))).len()
            == b.len(),
        b.subrange(o, b.len() as int)
            == chunk_block::<VersionChunk>(VERS_TAG, m.version_chunk) + (chunk_block::<ModelChunk>(MODL_TAG, m.model_chunk) + (chunk_block::<SequenceChunk>(SEQS_TAG, m.sequence_chunk) + (chunk_block::<GlobalSequenceChunk>(GLBS_TAG, m.global_sequence_chunk) + (chunk_block::<TextureChunk>(TEXS_TAG, m.texture_chunk) + (chunk_block::<TextureAnimationChunk>(TXAN_TAG, m.texture_animation_chunk) + (chunk_block::<GeosetChunk>(GEOS_TAG, m.geoset_chunk) + (chunk_block::<GeosetAnimationChunk>(GEOA_TAG, m.geoset_animation_chunk) + (chunk_block::<BoneChunk>(BONE_TAG, m.bone_chunk) + (chunk_block::<LightChunk>(LITE_TAG, m.light_chunk) + (chunk_block::<HelperChunk>(HELP_TAG, m.helper_chunk) + (chunk_block::<AttachmentChunk>(ATCH_TAG, m.attachment_chunk) + (chunk_block::<PivotPointChunk>(PIVT_TAG, m.pivot_point_chunk) + (chunk_block::<ParticleEmitterChunk>(PREM_TAG, m.particle_emitter_chunk) + (chunk_block::<ParticleEmitter2Chunk>(PRE2_TAG, m.particle_emitter2_chunk) + (chunk_block::<RibbonEmitterChunk>(RIBB_TAG, m.ribbon_emitter_chunk) + (chunk_block::<EventObjectChunk>(EVTS_TAG, m.event_object_chunk) + (chunk_block::<CameraChunk>(CAMS_TAG, m.camera_chunk) + (chunk_block::<CollisionShapeChunk>(CLID_TAG, m.collision_shape_chunk) + chunk_block::<MaterialChunk>(MTLS_TAG, m.material_chunk))))))))))))))))))),
    ensures
        parse_chunks(b, o, MDLXContents {
            version_chunk: None,
            model_chunk: None,
            sequence_chunk: None,
            global_sequence_chunk: None,
            texture_chunk: None,
            texture_animation_chunk: None,
            geoset_chunk: None,
            geoset_animation_chunk: None,
            bone_chunk: None,
            light_chunk: None,
            helper_chunk: None,
            attachment_chunk: None,
            pivot_point_chunk: None,
            particle_emitter_chunk: None,
            particle_emitter2_chunk: None,
            ribbon_emitter_chunk: None,
            event_object_chunk: None,
            camera_chunk: None,
            collision_shape_chunk: None,
            material_chunk: None,
            ..m
        }) == Ok::<MDLXContents, FormatError>(m),
{
    lemma_split(b, o, chunk_block::<VersionChunk>(VERS_TAG, m.version_chunk), chunk_block::<ModelChunk>(MODL_TAG, m.model_chunk) + (chunk_block::<SequenceChunk>(SEQS_TAG, m.sequence_chunk) + (chunk_block::<GlobalSequenceChunk>(GLBS_TAG, m.global_sequence_chunk) + (chunk_block::<TextureChunk>(TEXS_TAG, m.texture_chunk) + (chunk_block::<TextureAnimationChunk>(TXAN_TAG, m.texture_animation_chunk) + (chunk_block::<GeosetChunk>(GEOS_TAG, m.geoset_chunk) + (chunk_block::<GeosetAnimationChunk>(GEOA_TAG, m.geoset_animation_chunk) + (chunk_block::<BoneChunk>(BONE_TAG, m.bone_chunk) + (chunk_block::<LightChunk>(LITE_TAG, m.light_chunk) + (chunk_block::<HelperChunk>(HELP_TAG, m.helper_chunk) + (chunk_block::<AttachmentChunk>(ATCH_TAG, m.attachment_chunk) + (chunk_block::<PivotPointChunk>(PIVT_TAG, m.pivot_point_chunk) + (chunk_block::<ParticleEmitterChunk>(PREM_TAG, m.particle_emitter_chunk) + (chunk_block::<ParticleEmitter2Chunk>(PRE2_TAG, m.particle_emitter2_chunk) + (chunk_block::<RibbonEmitterChunk>(RIBB_TAG, m.ribbon_emitter_chunk) + (chunk_block::<EventObjectChunk>(EVTS_TAG, m.event_object_chunk) + (chunk_block::<CameraChunk>(CAMS_TAG, m.camera_chunk) + (chunk_block::<CollisionShapeChunk>(CLID_TAG, m.collision_shape_chunk) + chunk_block::<MaterialChunk>(MTLS_TAG, m.material_chunk)))))))))))))))))));
    lemma_chunk_block_round_trip::<VersionChunk>(VERS_TAG, m.version_chunk, b, o);
    lemma_chunks_from_1(m, b, o + (chunk_block::<VersionChunk>(VERS_TAG, m.version_chunk)).len());
    if m.version_chunk is None {
        assert(MDLXContents {
            version_chunk: None,
            model_chunk: None,
            sequence_chunk: None,
            global_sequence_chunk: None,
            texture_chunk: None,
            texture_animation_chunk: None,
            geoset_chunk: None,
            geoset_animation_chunk: None,
            bone_chunk: None,
            light_chunk: None,
            helper_chunk: None,
            attachment_chunk: None,
            pivot_point_chunk: None,
            particle_emitter_chunk: None,
            particle_emitter2_chunk: None,
            ribbon_emitter_chunk: None,
            event_object_chunk: None,
            camera_chunk: None,
            collision_shape_chunk: None,
            material_chunk: None,
            ..m
        } == MDLXContents {
            model_chunk: None,
            sequence_chunk: None,
            global_sequence_chunk: None,
            texture_chunk: None,
            texture_animation_chunk: None,
            geoset_chunk: None,
            geoset_animation_chunk: None,
            bone_chunk: None,
            light_chunk: None,
            helper_chunk: None,
            attachment_chunk: None,
            pivot_point_chunk: None,
            particle_emitter_chunk: None,
            particle_emitter2_chunk: None,
            ribbon_emitter_chunk: None,
            event_object_chunk: None,
            camera_chunk: None,
            collision_shape_chunk: None,
            material_chunk: None,
            ..m
        });
    }
}

/// Where the chunks of a model sit in its encoding: the magic tag, then the
/// chunk blocks one after another.
#[verifier::spinoff_prover]
#[verifier::rlimit(100)]
proof fn lemma_mdx_layout(m: MDLXContents)
    ensures
        mdx_bytes(m).subrange(0, 4) == u32_bytes(MDLX_TAG),
        u32_bytes(MDLX_TAG).len() == 4,
        4 + (chunk_block::<VersionChunk>(VERS_TAG, m.version_chunk) + (chunk_block::<ModelChunk>(MODL_TAG, m.model_chunk) + (chunk_block::<SequenceChunk>(SEQS_TAG, m.sequence_chunk) + (chunk_block::<GlobalSequenceChunk>(GLBS_TAG, m.global_sequence_chunk) + (chunk_block::<TextureChunk>(TEXS_TAG, m.texture_chunk) + (chunk_block::<TextureAnimationChunk>(TXAN_TAG, m.texture_animation_chunk) + (chunk_block::<GeosetChunk>(GEOS_TAG, m.geoset_chunk) + (chunk_block::<GeosetAnimationChunk>(GEOA_TAG, m.geoset_animation_chunk) + (chunk_block::<BoneChunk>(BONE_TAG, m.bone_chunk) + (chunk_block::<LightChunk>(LITE_TAG, m.light_chunk) + (chunk_block::<HelperChunk>(HELP_TAG, m.helper_chunk) + (chunk_block::<AttachmentChunk>(ATCH_TAG, m.attachment_chunk) + (chunk_block::<PivotPointChunk>(PIVT_TAG, m.pivot_point_chunk) + (chunk_block::<ParticleEmitterChunk>(PREM_TAG, m.particle_emitter_chunk) + (chunk_block::<ParticleEmitter2Chunk>(PRE2_TAG, m.particle_emitter2_chunk) + (chunk_block::<RibbonEmitterChunk>(RIBB_TAG, m.ribbon_emitter_chunk) + (chunk_block::<EventObjectChunk>(EVTS_TAG, m.event_object_chunk) + (chunk_block::<CameraChunk>(CAMS_TAG, m.camera_chunk) + (chunk_block::<CollisionShapeChunk>(CLID_TAG, m.collision_shape_chunk) + chunk_block::<MaterialChunk>(MTLS_TAG, m.material_chunk)))))))))))))))))))).len()
            == mdx_bytes(m).len(),
        mdx_bytes(m).subrange(4, mdx_bytes(m).len() as int)
            == chunk_block::<VersionChunk>(VERS_TAG, m.version_chunk) + (chunk_block::<ModelChunk>(MODL_TAG, m.model_chunk) + (chunk_block::<SequenceChunk>(SEQS_TAG, m.sequence_chunk) + (chunk_block::<GlobalSequenceChunk>(GLBS_TAG, m.global_sequence_chunk) + (chunk_block::<TextureChunk>(TEXS_TAG, m.texture_chunk) + (chunk_block::<TextureAnimationChunk>(TXAN_TAG, m.texture_animation_chunk) + (chunk_block::<GeosetChunk>(GEOS_TAG, m.geoset_chunk) + (chunk_block::<GeosetAnimationChunk>(GEOA_TAG, m.geoset_animation_chunk) + (chunk_block::<BoneChunk>(BONE_TAG, m.bone_chunk) + (chunk_block::<LightChunk>(LITE_TAG, m.light_chunk) + (chunk_block::<HelperChunk>(HELP_TAG, m.helper_chunk) + (chunk_block::<AttachmentChunk>(ATCH_TAG, m.attachment_chunk) + (chunk_block::<PivotPointChunk>(PIVT_TAG, m.pivot_point_chunk) + (chunk_block::<ParticleEmitterChunk>(PREM_TAG, m.particle_emitter_chunk) + (chunk_block::<ParticleEmitter2Chunk>(PRE2_TAG, m.particle_emitter2_chunk) + (chunk_block::<RibbonEmitterChunk>(RIBB_TAG, m.ribbon_emitter_chunk) + (chunk_block::<EventObjectChunk>(EVTS_TAG, m.event_object_chunk) + (chunk_block::<CameraChunk>(CAMS_TAG, m.camera_chunk) + (chunk_block::<CollisionShapeChunk>(CLID_TAG, m.collision_shape_chunk) + chunk_block::<MaterialChunk>(MTLS_TAG, m.material_chunk))))))))))))))))))),
{
    let b = mdx_bytes(m);
    let q0 = u32_bytes(MDLX_TAG);
    lemma_u32_bytes(MDLX_TAG);
    let q1 = q0 + chunk_block::<VersionChunk>(VERS_TAG, m.version_chunk);
    let q2 = q1 + chunk_block::<ModelChunk>(MODL_TAG, m.model_chunk);
    let q3 = q2 + chunk_block::<SequenceChunk>(SEQS_TAG, m.sequence_chunk);
    let q4 = q3 + chunk_block::<GlobalSequenceChunk>(GLBS_TAG, m.global_sequence_chunk);
    let q5 = q4 + chunk_block::<TextureChunk>(TEXS_TAG, m.texture_chunk);
    let q6 = q5 + chunk_block::<TextureAnimationChunk>(TXAN_TAG, m.texture_animation_chunk);
    let q7 = q6 + chunk_block::<GeosetChunk>(GEOS_TAG, m.geoset_chunk);
    let q8 = q7 + chunk_block::<GeosetAnimationChunk>(GEOA_TAG, m.geoset_animation_chunk);
    let q9 = q8 + chunk_block::<BoneChunk>(BONE_TAG, m.bone_chunk);
    let q10 = q9 + chunk_block::<LightChunk>(LITE_TAG, m.light_chunk);
    let q11 = q10 + chunk_block::<HelperChunk>(HELP_TAG, m.helper_chunk);
    let q12 = q11 + chunk_block::<AttachmentChunk>(ATCH_TAG, m.attachment_chunk);
    let q13 = q12 + chunk_block::<PivotPointChunk>(PIVT_TAG, m.pivot_point_chunk);
    let q14 = q13 + chunk_block::<ParticleEmitterChunk>(PREM_TAG, m.particle_emitter_chunk);
    let q15 = q14 + chunk_block::<ParticleEmitter2Chunk>(PRE2_TAG, m.particle_emitter2_chunk);
    let q16 = q15 + chunk_block::<RibbonEmitterChunk>(RIBB_TAG, m.ribbon_emitter_chunk);
    let q17 = q16 + chunk_block::<EventObjectChunk>(EVTS_TAG, m.event_object_chunk);
    let q18 = q17 + chunk_block::<CameraChunk>(CAMS_TAG, m.camera_chunk);
    let q19 = q18 + chunk_block::<CollisionShapeChunk>(CLID_TAG, m.collision_shape_chunk);
    let q20 = q19 + chunk_block::<MaterialChunk>(MTLS_TAG, m.material_chunk);
    assert(q20 == b);
    assert(b.subrange(0, b.len() as int) =~= b);
    lemma_split(b, 0, q19, chunk_block::<MaterialChunk>(MTLS_TAG, m.material_chunk));
    lemma_split(b, 0, q18, chunk_block::<CollisionShapeChunk>(CLID_TAG, m.collision_shape_chunk));
    lemma_split(b, 0, q17, chunk_block::<CameraChunk>(CAMS_TAG, m.camera_chunk));
    lemma_split(b, 0, q16, chunk_block::<EventObjectChunk>(EVTS_TAG, m.event_object_chunk));
    lemma_split(b, 0, q15, chunk_block::<RibbonEmitterChunk>(RIBB_TAG, m.ribbon_emitter_chunk));
    lemma_split(b, 0, q14, chunk_block::<ParticleEmitter2Chunk>(PRE2_TAG, m.particle_emitter2_chunk));
    lemma_split(b, 0, q13, chunk_block::<ParticleEmitterChunk>(PREM_TAG, m.particle_emitter_chunk));
    lemma_split(b, 0, q12, chunk_block::<PivotPointChunk>(PIVT_TAG, m.pivot_point_chunk));
    lemma_split(b, 0, q11, chunk_block::<AttachmentChunk>(ATCH_TAG, m.attachment_chunk));
    lemma_split(b, 0, q10, chunk_block::<HelperChunk>(HELP_TAG, m.helper_chunk));
    lemma_split(b, 0, q9, chunk_block::<LightChunk>(LITE_TAG, m.light_chunk));
    lemma_split(b, 0, q8, chunk_block::<BoneChunk>(BONE_TAG, m.bone_chunk));
    lemma_split(b, 0, q7, chunk_block::<GeosetAnimationChunk>(GEOA_TAG, m.geoset_animation_chunk));
    lemma_split(b, 0, q6, chunk_block::<GeosetChunk>(GEOS_TAG, m.geoset_chunk));
    lemma_split(b, 0, q5, chunk_block::<TextureAnimationChunk>(TXAN_TAG, m.texture_animation_chunk));
    lemma_split(b, 0, q4, chunk_block::<TextureChunk>(TEXS_TAG, m.texture_chunk));
    lemma_split(b, 0, q3, chunk_block::<GlobalSequenceChunk>(GLBS_TAG, m.global_sequence_chunk));
    lemma_split(b, 0, q2, chunk_block::<SequenceChunk>(SEQS_TAG, m.sequence_chunk));
    lemma_split(b, 0, q1, chunk_block::<ModelChunk>(MODL_TAG, m.model_chunk));
    lemma_split(b, 0, q0, chunk_block::<VersionChunk>(VERS_TAG, m.version_chunk));
    let r19 = chunk_block::<MaterialChunk>(MTLS_TAG, m.material_chunk);
    lemma_join(b, q18.len() as int, chunk_block::<CollisionShapeChunk>(CLID_TAG, m.collision_shape_chunk), r19);
    let r18 = chunk_block::<CollisionShapeChunk>(CLID_TAG, m.collision_shape_chunk) + r19;
    lemma_join(b, q17.len() as int, chunk_block::<CameraChunk>(CAMS_TAG, m.camera_chunk), r18);
    let r17 = chunk_block::<CameraChunk>(CAMS_TAG, m.camera_chunk) + r18;
    lemma_join(b, q16.len() as int, chunk_block::<EventObjectChunk>(EVTS_TAG, m.event_object_chunk), r17);
    let r16 = chunk_block::<EventObjectChunk>(EVTS_TAG, m.event_object_chunk) + r17;
    lemma_join(b, q15.len() as int, chunk_block::<RibbonEmitterChunk>(RIBB_TAG, m.ribbon_emitter_chunk), r16);
    let r15 = chunk_block::<RibbonEmitterChunk>(RIBB_TAG, m.ribbon_emitter_chunk) + r16;
    lemma_join(b, q14.len() as int, chunk_block::<ParticleEmitter2Chunk>(PRE2_TAG, m.particle_emitter2_chunk), r15);
    let r14 = chunk_block::<ParticleEmitter2Chunk>(PRE2_TAG, m.particle_emitter2_chunk) + r15;
    lemma_join(b, q13.len() as int, chunk_block::<ParticleEmitterChunk>(PREM_TAG, m.particle_emitter_chunk), r14);
    let r13 = chunk_block::<ParticleEmitterChunk>(PREM_TAG, m.particle_emitter_chunk) + r14;
    lemma_join(b, q12.len() as int, chunk_block::<PivotPointChunk>(PIVT_TAG, m.pivot_point_chunk), r13);
    let r12 = chunk_block::<PivotPointChunk>(PIVT_TAG, m.pivot_point_chunk) + r13;
    lemma_join(b, q11.len() as int, chunk_block::<AttachmentChunk>(ATCH_TAG, m.attachment_chunk), r12);
    let r11 = chunk_block::<AttachmentChunk>(ATCH_TAG, m.attachment_chunk) + r12;
    lemma_join(b, q10.len() as int, chunk_block::<HelperChunk>(HELP_TAG, m.helper_chunk), r11);
    let r10 = chunk_block::<HelperChunk>(HELP_TAG, m.helper_chunk) + r11;
    lemma_join(b, q9.len() as int, chunk_block::<LightChunk>(LITE_TAG, m.light_chunk), r10);
    let r9 = chunk_block::<LightChunk>(LITE_TAG, m.light_chunk) + r10;
    lemma_join(b, q8.len() as int, chunk_block::<BoneChunk>(BONE_TAG, m.bone_chunk), r9);
    let r8 = chunk_block::<BoneChunk>(BONE_TAG, m.bone_chunk) + r9;
    lemma_join(b, q7.len() as int, chunk_block::<GeosetAnimationChunk>(GEOA_TAG, m.geoset_animation_chunk), r8);
    let r7 = chunk_block::<GeosetAnimationChunk>(GEOA_TAG, m.geoset_animation_chunk) + r8;
    lemma_join(b, q6.len() as int, chunk_block::<GeosetChunk>(GEOS_TAG, m.geoset_chunk), r7);
    let r6 = chunk_block::<GeosetChunk>(GEOS_TAG, m.geoset_chunk) + r7;
    lemma_join(b, q5.len() as int, chunk_block::<TextureAnimationChunk>(TXAN_TAG, m.texture_animation_chunk), r6);
    let r5 = chunk_block::<TextureAnimationChunk>(TXAN_TAG, m.texture_animation_chunk) + r6;
    lemma_join(b, q4.len() as int, chunk_block::<TextureChunk>(TEXS_TAG, m.texture_chunk), r5);
    let r4 = chunk_block::<TextureChunk>(TEXS_TAG, m.texture_chunk) + r5;
    lemma_join(b, q3.len() as int, chunk_block::<GlobalSequenceChunk>(GLBS_TAG, m.global_sequence_chunk), r4);
    let r3 = chunk_block::<GlobalSequenceChunk>(GLBS_TAG, m.global_sequence_chunk) + r4;
    lemma_join(b, q2.len() as int, chunk_block::<SequenceChunk>(SEQS_TAG, m.sequence_chunk), r3);
    let r2 = chunk_block::<SequenceChunk>(SEQS_TAG, m.sequence_chunk) + r3;
    lemma_join(b, q1.len() as int, chunk_block::<ModelChunk>(MODL_TAG, m.model_chunk), r2);
    let r1 = chunk_block::<ModelChunk>(MODL_TAG, m.model_chunk) + r2;
    lemma_join(b, q0.len() as int, chunk_block::<VersionChunk>(VERS_TAG, m.version_chunk), r1);
}

/// A well-formed optional chunk can be encoded, and recomputing its size
/// changes nothing.
proof fn lemma_chunk_slot<T: Chunk>(o: Option<T::V>)
    requires
        chunk_wf::<T>(o),
    ensures
        sized_opt::<T>(o) == o,
        chunk_encodable::<T>(o),
{
    reveal(chunk_wf);
    reveal(sized_opt);
    reveal(chunk_encodable);
    if let Some(c) = o {
        T::lemma_resized(c);
        T::lemma_sized_id(c);
        T::lemma_wf_encodable(c);
    }
}

/// Every chunk of a well-formed model can be encoded, and recomputing its
/// size changes nothing.
proof fn lemma_mdx_sized_encodable(m: MDLXContents)
    requires
        mdx_wf(m),
    ensures
        mdx_sized(m) == m,
        mdx_encodable(m),
{
    lemma_chunk_slot::<VersionChunk>(m.version_chunk);
    lemma_chunk_slot::<ModelChunk>(m.model_chunk);
    lemma_chunk_slot::<SequenceChunk>(m.sequence_chunk);
    lemma_chunk_slot::<GlobalSequenceChunk>(m.global_sequence_chunk);
    lemma_chunk_slot::<TextureChunk>(m.texture_chunk);
    lemma_chunk_slot::<TextureAnimationChunk>(m.texture_animation_chunk);
    lemma_chunk_slot::<GeosetChunk>(m.geoset_chunk);
    lemma_chunk_slot::<GeosetAnimationChunk>(m.geoset_animation_chunk);
    lemma_chunk_slot::<BoneChunk>(m.bone_chunk);
    lemma_chunk_slot::<LightChunk>(m.light_chunk);
    lemma_chunk_slot::<HelperChunk>(m.helper_chunk);
    lemma_chunk_slot::<AttachmentChunk>(m.attachment_chunk);
    lemma_chunk_slot::<PivotPointChunk>(m.pivot_point_chunk);
    lemma_chunk_slot::<ParticleEmitterChunk>(m.particle_emitter_chunk);
    lemma_chunk_slot::<ParticleEmitter2Chunk>(m.particle_emitter2_chunk);
    lemma_chunk_slot::<RibbonEmitterChunk>(m.ribbon_emitter_chunk);
    lemma_chunk_slot::<EventObjectChunk>(m.event_object_chunk);
    lemma_chunk_slot::<CameraChunk>(m.camera_chunk);
    lemma_chunk_slot::<CollisionShapeChunk>(m.collision_shape_chunk);
    lemma_chunk_slot::<MaterialChunk>(m.material_chunk);
}

/// Round-trip identity: a buffer that encodes a well-formed model decodes to
/// that model, the model can be encoded, and recomputing its chunk sizes
/// changes nothing, so writing it reproduces the buffer byte for byte.
pub proof fn lemma_round_trip_identity(m: MDLXContents)
    requires
        mdx_wf(m),
    ensures
        parse_mdx(mdx_bytes(m)) == Ok::<MDLXContents, FormatError>(m),
        mdx_encodable(m),
        mdx_sized(m) == m,
{
    let b = mdx_bytes(m);
    lemma_mdx_layout(m);
    lemma_u32_bytes(MDLX_TAG);
    lemma_chunks_from_0(m, b, 4);
    assert(MDLXContents {
        version_chunk: None,
        model_chunk: None,
        sequence_chunk: None,
        global_sequence_chunk: None,
        texture_chunk: None,
        texture_animation_chunk: None,
        geoset_chunk: None,
        geoset_animation_chunk: None,
        bone_chunk: None,
        light_chunk: None,
        helper_chunk: None,
        attachment_chunk: None,
        pivot_point_chunk: None,
        particle_emitter_chunk: None,
        particle_emitter2_chunk: None,
        ribbon_emitter_chunk: None,
        event_object_chunk: None,
        camera_chunk: None,
        collision_shape_chunk: None,
        material_chunk: None,
        ..m
    } == empty_contents());
    lemma_mdx_sized_encodable(m);
}

/// Whether `tag` names one of the format's chunk kinds.
pub open spec fn known_chunk_tag(tag: u32) -> bool {
    tag == VERS_TAG
    || tag == MODL_TAG
    || tag == SEQS_TAG
    || tag == GLBS_TAG
    || tag == TEXS_TAG
    || tag == TXAN_TAG
    || tag == GEOS_TAG
    || tag == GEOA_TAG
    || tag == BONE_TAG
    || tag == LITE_TAG
    || tag == HELP_TAG
    || tag == ATCH_TAG
    || tag == PIVT_TAG
    || tag == PREM_TAG
    || tag == PRE2_TAG
    || tag == RIBB_TAG
    || tag == EVTS_TAG
    || tag == CAMS_TAG
    || tag == CLID_TAG
    || tag == MTLS_TAG
}

/// A top-level chunk tag that the format does not define is refused with a
/// typed error, whatever follows it.
pub proof fn lemma_unknown_chunk_tag(b: Seq<u8>, pos: int, acc: MDLXContents)
    requires
        0 <= pos,
        pos + 4 <= b.len(),
        !known_chunk_tag(u32_at(b, pos)),
    ensures
        parse_chunks(b, pos, acc) == Err::<MDLXContents, FormatError>(
            FormatError::UnknownChunkTag(u32_at(b, pos)),
        ),
{
}


impl Default for MDLXModel {
    fn default() -> (r: MDLXModel)
        ensures
            r@ == empty_contents(),
    {
        MDLXModel {
            version_chunk: None,
            model_chunk: None,
            sequence_chunk: None,
            global_sequence_chunk: None,
            texture_chunk: None,
            texture_animation_chunk: None,
            geoset_chunk: None,
            geoset_animation_chunk: None,
            bone_chunk: None,
            light_chunk: None,
            helper_chunk: None,
            attachment_chunk: None,
            pivot_point_chunk: None,
            particle_emitter_chunk: None,
            particle_emitter2_chunk: None,
            ribbon_emitter_chunk: None,
            event_object_chunk: None,
            camera_chunk: None,
            collision_shape_chunk: None,
            material_chunk: None,
        }
    }
}

impl MDLXModel {
    /// Decodes a whole file.
    pub fn read_mdx_file(data: Vec<u8>) -> (r: Result<MDLXModel, FormatError>)
        ensures
            parse_mdx(data@) == match r {
                Ok(m) => Ok(m@),
                Err(e) => Err(e),
            },
    {
        let src = data.as_slice();
        if src.len() < 4 {
            return Err(FormatError::OutOfBounds);
        }
        let magic = read_u32(src, 0);
        if magic != MDLX_TAG {
            return Err(FormatError::InvalidMagic(magic));
        }
        let mut result = MDLXModel::default();
        let mut offset: usize = 4;
        while offset < src.len()
            invariant
                offset <= src.len(),
                src@ == data@,
                parse_mdx(data@) == parse_chunks(src@, offset as int, result@),
            decreases src.len() - offset,
        {
            if src.len() - offset < 4 {
                return Err(FormatError::OutOfBounds);
            }
            let tag = read_u32(src, offset);
            offset = offset + 4;
            if let Err(e) = result.handle_tag(tag, src, &mut offset) {
                return Err(e);
            }
        }
        Ok(result)
    }

    /// Writes `model` after recomputing every record's and every chunk's size. Fails when the
    /// file would reach `u32::MAX` bytes, or when a text field does not fit.
    pub fn write_mdx_file(model: MDLXModel) -> (r: Result<Vec<u8>, FormatError>)
        ensures
            mdx_bytes(model@).len() >= u32::MAX ==> r
                == Err::<Vec<u8>, FormatError>(FormatError::TooLarge),
            mdx_bytes(model@).len() < u32::MAX ==> (r is Ok <==> mdx_encodable(model@)),
            mdx_bytes(model@).len() < u32::MAX && !mdx_encodable(model@) ==> r
                == Err::<Vec<u8>, FormatError>(
                FormatError::StringTooLong,
            ),
            r matches Ok(b) ==> b@ == mdx_bytes(mdx_sized(model@)),
    {
        let mut model = model;
        let total = model.model_total_size();
        if total >= 0xFFFF_FFFF {
            return Err(FormatError::TooLarge);
        }
        model.correct_chunk_size();
        let ghost sized = model@;
        let mut data: Vec<u8> = Vec::with_capacity(total);
        write_u32(&mut data, MDLX_TAG);
        let ghost mut acc = u32_bytes(MDLX_TAG);
        if let Err(e) = write_block(&mut data, VERS_TAG, &model.version_chunk) {
            return Err(e);
        }
        proof {
            acc = acc + chunk_block::<VersionChunk>(VERS_TAG, sized.version_chunk);
        }
        assert(data@ =~= acc);
        if let Err(e) = write_block(&mut data, MODL_TAG, &model.model_chunk) {
            return Err(e);
        }
        proof {
            acc = acc + chunk_block::<ModelChunk>(MODL_TAG, sized.model_chunk);
        }
        assert(data@ =~= acc);
        if let Err(e) = write_block(&mut data, SEQS_TAG, &model.sequence_chunk) {
            return Err(e);
        }
        proof {
            acc = acc + chunk_block::<SequenceChunk>(SEQS_TAG, sized.sequence_chunk);
        }
        assert(data@ =~= acc);
        if let Err(e) = write_block(&mut data, GLBS_TAG, &model.global_sequence_chunk) {
            return Err(e);
        }
        proof {
            acc = acc + chunk_block::<GlobalSequenceChunk>(GLBS_TAG, sized.global_sequence_chunk);
        }
        assert(data@ =~= acc);
        if let Err(e) = write_block(&mut data, TEXS_TAG, &model.texture_chunk) {
            return Err(e);
        }
        proof {
            acc = acc + chunk_block::<TextureChunk>(TEXS_TAG, sized.texture_chunk);
        }
        assert(data@ =~= acc);
        if let Err(e) = write_block(&mut data, TXAN_TAG, &model.texture_animation_chunk) {
            return Err(e);
        }
        proof {
            acc = acc + chunk_block::<TextureAnimationChunk>(TXAN_TAG, sized.texture_animation_chunk);
        }
        assert(data@ =~= acc);
        if let Err(e) = write_block(&mut data, GEOS_TAG, &model.geoset_chunk) {
            return Err(e);
        }
        proof {
            acc = acc + chunk_block::<GeosetChunk>(GEOS_TAG, sized.geoset_chunk);
        }
        assert(data@ =~= acc);
        if let Err(e) = write_block(&mut data, GEOA_TAG, &model.geoset_animation_chunk) {
            return Err(e);
        }
        proof {
            acc = acc + chunk_block::<GeosetAnimationChunk>(GEOA_TAG, sized.geoset_animation_chunk);
        }
        assert(data@ =~= acc);
        if let Err(e) = write_block(&mut data, BONE_TAG, &model.bone_chunk) {
            return Err(e);
        }
        proof {
            acc = acc + chunk_block::<BoneChunk>(BONE_TAG, sized.bone_chunk);
        }
        assert(data@ =~= acc);
        if let Err(e) = write_block(&mut data, LITE_TAG, &model.light_chunk) {
            return Err(e);
        }
        proof {
            acc = acc + chunk_block::<LightChunk>(LITE_TAG, sized.light_chunk);
        }
        assert(data@ =~= acc);
        if let Err(e) = write_block(&mut data, HELP_TAG, &model.helper_chunk) {
            return Err(e);
        }
        proof {
            acc = acc + chunk_block::<HelperChunk>(HELP_TAG, sized.helper_chunk);
        }
        assert(data@ =~= acc);
        if let Err(e) = write_block(&mut data, ATCH_TAG, &model.attachment_chunk) {
            return Err(e);
        }
        proof {
            acc = acc + chunk_block::<AttachmentChunk>(ATCH_TAG, sized.attachment_chunk);
        }
        assert(data@ =~= acc);
        if let Err(e) = write_block(&mut data, PIVT_TAG, &model.pivot_point_chunk) {
            return Err(e);
        }
        proof {
            acc = acc + chunk_block::<PivotPointChunk>(PIVT_TAG, sized.pivot_point_chunk);
        }
        assert(data@ =~= acc);
        if let Err(e) = write_block(&mut data, PREM_TAG, &model.particle_emitter_chunk) {
            return Err(e);
        }
        proof {
            acc = acc + chunk_block::<ParticleEmitterChunk>(PREM_TAG, sized.particle_emitter_chunk);
        }
        assert(data@ =~= acc);
        if let Err(e) = write_block(&mut data, PRE2_TAG, &model.particle_emitter2_chunk) {
            return Err(e);
        }
        proof {
            acc = acc + chunk_block::<ParticleEmitter2Chunk>(PRE2_TAG, sized.particle_emitter2_chunk);
        }
        assert(data@ =~= acc);
        if let Err(e) = write_block(&mut data, RIBB_TAG, &model.ribbon_emitter_chunk) {
            return Err(e);
        }
        proof {
            acc = acc + chunk_block::<RibbonEmitterChunk>(RIBB_TAG, sized.ribbon_emitter_chunk);
        }
        assert(data@ =~= acc);
        if let Err(e) = write_block(&mut data, EVTS_TAG, &model.event_object_chunk) {
            return Err(e);
        }
        proof {
            acc = acc + chunk_block::<EventObjectChunk>(EVTS_TAG, sized.event_object_chunk);
        }
        assert(data@ =~= acc);
        if let Err(e) = write_block(&mut data, CAMS_TAG, &model.camera_chunk) {
            return Err(e);
        }
        proof {
            acc = acc + chunk_block::<CameraChunk>(CAMS_TAG, sized.camera_chunk);
        }
        assert(data@ =~= acc);
        if let Err(e) = write_block(&mut data, CLID_TAG, &model.collision_shape_chunk) {
            return Err(e);
        }
        proof {
            acc = acc + chunk_block::<CollisionShapeChunk>(CLID_TAG, sized.collision_shape_chunk);
        }
        assert(data@ =~= acc);
        if let Err(e) = write_block(&mut data, MTLS_TAG, &model.material_chunk) {
            return Err(e);
        }
        proof {
            acc = acc + chunk_block::<MaterialChunk>(MTLS_TAG, sized.material_chunk);
        }
        assert(data@ =~= acc);
        assert(acc == mdx_bytes(sized));
        Ok(data)
    }

    /// Recomputes the declared sizes of every record and every chunk present.
    pub fn correct_chunk_size(&mut self)
        requires
            mdx_bytes(old(self)@).len() <= u32::MAX,
        ensures
            final(self)@ == mdx_sized(old(self)@),
            mdx_bytes(final(self)@).len() == mdx_bytes(old(self)@).len(),
            mdx_encodable(final(self)@) == mdx_encodable(old(self)@),
    {
        correct_block(VERS_TAG, &mut self.version_chunk);
        correct_block(MODL_TAG, &mut self.model_chunk);
        correct_block(SEQS_TAG, &mut self.sequence_chunk);
        correct_block(GLBS_TAG, &mut self.global_sequence_chunk);
        correct_block(TEXS_TAG, &mut self.texture_chunk);
        correct_block(TXAN_TAG, &mut self.texture_animation_chunk);
        correct_block(GEOS_TAG, &mut self.geoset_chunk);
        correct_block(GEOA_TAG, &mut self.geoset_animation_chunk);
        correct_block(BONE_TAG, &mut self.bone_chunk);
        correct_block(LITE_TAG, &mut self.light_chunk);
        correct_block(HELP_TAG, &mut self.helper_chunk);
        correct_block(ATCH_TAG, &mut self.attachment_chunk);
        correct_block(PIVT_TAG, &mut self.pivot_point_chunk);
        correct_block(PREM_TAG, &mut self.particle_emitter_chunk);
        correct_block(PRE2_TAG, &mut self.particle_emitter2_chunk);
        correct_block(RIBB_TAG, &mut self.ribbon_emitter_chunk);
        correct_block(EVTS_TAG, &mut self.event_object_chunk);
        correct_block(CAMS_TAG, &mut self.camera_chunk);
        correct_block(CLID_TAG, &mut self.collision_shape_chunk);
        correct_block(MTLS_TAG, &mut self.material_chunk);
    }

    /// The length of the file that writing produces, clamped to `usize::MAX`.
    pub fn model_total_size(&self) -> (r: usize)
        ensures
            r == sat(mdx_bytes(self@).len() as int),
    {
        let mut r: usize = 4;
        let ghost mut acc = u32_bytes(MDLX_TAG);
        proof {
            lemma_u32_bytes(MDLX_TAG);
        }
        let k = block_size(VERS_TAG, &self.version_chunk);
        proof {
            lemma_sat_add(acc.len() as int, chunk_block::<VersionChunk>(VERS_TAG, self@.version_chunk).len() as int);
            acc = acc + chunk_block::<VersionChunk>(VERS_TAG, self@.version_chunk);
        }
        r = add_sat(r, k);
        let k = block_size(MODL_TAG, &self.model_chunk);
        proof {
            lemma_sat_add(acc.len() as int, chunk_block::<ModelChunk>(MODL_TAG, self@.model_chunk).len() as int);
            acc = acc + chunk_block::<ModelChunk>(MODL_TAG, self@.model_chunk);
        }
        r = add_sat(r, k);
        let k = block_size(SEQS_TAG, &self.sequence_chunk);
        proof {
            lemma_sat_add(acc.len() as int, chunk_block::<SequenceChunk>(SEQS_TAG, self@.sequence_chunk).len() as int);
            acc = acc + chunk_block::<SequenceChunk>(SEQS_TAG, self@.sequence_chunk);
        }
        r = add_sat(r, k);
        let k = block_size(GLBS_TAG, &self.global_sequence_chunk);
        proof {
            lemma_sat_add(acc.len() as int, chunk_block::<GlobalSequenceChunk>(GLBS_TAG, self@.global_sequence_chunk).len() as int);
            acc = acc + chunk_block::<GlobalSequenceChunk>(GLBS_TAG, self@.global_sequence_chunk);
        }
        r = add_sat(r, k);
        let k = block_size(TEXS_TAG, &self.texture_chunk);
        proof {
            lemma_sat_add(acc.len() as int, chunk_block::<TextureChunk>(TEXS_TAG, self@.texture_chunk).len() as int);
            acc = acc + chunk_block::<TextureChunk>(TEXS_TAG, self@.texture_chunk);
        }
        r = add_sat(r, k);
        let k = block_size(TXAN_TAG, &self.texture_animation_chunk);
        proof {
            lemma_sat_add(acc.len() as int, chunk_block::<TextureAnimationChunk>(TXAN_TAG, self@.texture_animation_chunk).len() as int);
            acc = acc + chunk_block::<TextureAnimationChunk>(TXAN_TAG, self@.texture_animation_chunk);
        }
        r = add_sat(r, k);
        let k = block_size(GEOS_TAG, &self.geoset_chunk);
        proof {
            lemma_sat_add(acc.len() as int, chunk_block::<GeosetChunk>(GEOS_TAG, self@.geoset_chunk).len() as int);
            acc = acc + chunk_block::<GeosetChunk>(GEOS_TAG, self@.geoset_chunk);
        }
        r = add_sat(r, k);
        let k = block_size(GEOA_TAG, &self.geoset_animation_chunk);
        proof {
            lemma_sat_add(acc.len() as int, chunk_block::<GeosetAnimationChunk>(GEOA_TAG, self@.geoset_animation_chunk).len() as int);
            acc = acc + chunk_block::<GeosetAnimationChunk>(GEOA_TAG, self@.geoset_animation_chunk);
        }
        r = add_sat(r, k);
        let k = block_size(BONE_TAG, &self.bone_chunk);
        proof {
            lemma_sat_add(acc.len() as int, chunk_block::<BoneChunk>(BONE_TAG, self@.bone_chunk).len() as int);
            acc = acc + chunk_block::<BoneChunk>(BONE_TAG, self@.bone_chunk);
        }
        r = add_sat(r, k);
        let k = block_size(LITE_TAG, &self.light_chunk);
        proof {
            lemma_sat_add(acc.len() as int, chunk_block::<LightChunk>(LITE_TAG, self@.light_chunk).len() as int);
            acc = acc + chunk_block::<LightChunk>(LITE_TAG, self@.light_chunk);
        }
        r = add_sat(r, k);
        let k = block_size(HELP_TAG, &self.helper_chunk);
        proof {
            lemma_sat_add(acc.len() as int, chunk_block::<HelperChunk>(HELP_TAG, self@.helper_chunk).len() as int);
            acc = acc + chunk_block::<HelperChunk>(HELP_TAG, self@.helper_chunk);
        }
        r = add_sat(r, k);
        let k = block_size(ATCH_TAG, &self.attachment_chunk);
        proof {
            lemma_sat_add(acc.len() as int, chunk_block::<AttachmentChunk>(ATCH_TAG, self@.attachment_chunk).len() as int);
            acc = acc + chunk_block::<AttachmentChunk>(ATCH_TAG, self@.attachment_chunk);
        }
        r = add_sat(r, k);
        let k = block_size(PIVT_TAG, &self.pivot_point_chunk);
        proof {
            lemma_sat_add(acc.len() as int, chunk_block::<PivotPointChunk>(PIVT_TAG, self@.pivot_point_chunk).len() as int);
            acc = acc + chunk_block::<PivotPointChunk>(PIVT_TAG, self@.pivot_point_chunk);
        }
        r = add_sat(r, k);
        let k = block_size(PREM_TAG, &self.particle_emitter_chunk);
        proof {
            lemma_sat_add(acc.len() as int, chunk_block::<ParticleEmitterChunk>(PREM_TAG, self@.particle_emitter_chunk).len() as int);
            acc = acc + chunk_block::<ParticleEmitterChunk>(PREM_TAG, self@.particle_emitter_chunk);
        }
        r = add_sat(r, k);
        let k = block_size(PRE2_TAG, &self.particle_emitter2_chunk);
        proof {
            lemma_sat_add(acc.len() as int, chunk_block::<ParticleEmitter2Chunk>(PRE2_TAG, self@.particle_emitter2_chunk).len() as int);
            acc = acc + chunk_block::<ParticleEmitter2Chunk>(PRE2_TAG, self@.particle_emitter2_chunk);
        }
        r = add_sat(r, k);
        let k = block_size(RIBB_TAG, &self.ribbon_emitter_chunk);
        proof {
            lemma_sat_add(acc.len() as int, chunk_block::<RibbonEmitterChunk>(RIBB_TAG, self@.ribbon_emitter_chunk).len() as int);
            acc = acc + chunk_block::<RibbonEmitterChunk>(RIBB_TAG, self@.ribbon_emitter_chunk);
        }
        r = add_sat(r, k);
        let k = block_size(EVTS_TAG, &self.event_object_chunk);
        proof {
            lemma_sat_add(acc.len() as int, chunk_block::<EventObjectChunk>(EVTS_TAG, self@.event_object_chunk).len() as int);
            acc = acc + chunk_block::<EventObjectChunk>(EVTS_TAG, self@.event_object_chunk);
        }
        r = add_sat(r, k);
        let k = block_size(CAMS_TAG, &self.camera_chunk);
        proof {
            lemma_sat_add(acc.len() as int, chunk_block::<CameraChunk>(CAMS_TAG, self@.camera_chunk).len() as int);
            acc = acc + chunk_block::<CameraChunk>(CAMS_TAG, self@.camera_chunk);
        }
        r = add_sat(r, k);
        let k = block_size(CLID_TAG, &self.collision_shape_chunk);
        proof {
            lemma_sat_add(acc.len() as int, chunk_block::<CollisionShapeChunk>(CLID_TAG, self@.collision_shape_chunk).len() as int);
            acc = acc + chunk_block::<CollisionShapeChunk>(CLID_TAG, self@.collision_shape_chunk);
        }
        r = add_sat(r, k);
        let k = block_size(MTLS_TAG, &self.material_chunk);
        proof {
            lemma_sat_add(acc.len() as int, chunk_block::<MaterialChunk>(MTLS_TAG, self@.material_chunk).len() as int);
            acc = acc + chunk_block::<MaterialChunk>(MTLS_TAG, self@.material_chunk);
        }
        r = add_sat(r, k);
        assert(acc == mdx_bytes(self@));
        r
    }

    /// Decodes the chunk of kind `tag` whose size field is at `*offset`, stores
    /// it, and moves `*offset` past it.
    pub fn handle_tag(&mut self, tag: u32, data: &[u8], offset: &mut usize) -> (r: Result<(), FormatError>)
        requires
            *old(offset) <= data.len(),
        ensures
            parse_chunk(data@, *old(offset) as int, tag, old(self)@) == match r {
                Ok(()) => Ok((final(self)@, *final(offset) as int)),
                Err(e) => Err(e),
            },
            r is Ok ==> *old(offset) < *final(offset) <= data.len(),
    {
        if tag == VERS_TAG {
            match VersionChunk::decode(data, *offset) {
                Ok((c, p)) => {
                    self.version_chunk = Some(c);
                    *offset = p;
                },
                Err(e) => {
                    return Err(e);
                },
            }
        } else if tag == MODL_TAG {
            match ModelChunk::decode(data, *offset) {
                Ok((c, p)) => {
                    self.model_chunk = Some(c);
                    *offset = p;
                },
                Err(e) => {
                    return Err(e);
                },
            }
        } else if tag == SEQS_TAG {
            match SequenceChunk::decode(data, *offset) {
                Ok((c, p)) => {
                    self.sequence_chunk = Some(c);
                    *offset = p;
                },
                Err(e) => {
                    return Err(e);
                },
            }
        } else if tag == GLBS_TAG {
            match GlobalSequenceChunk::decode(data, *offset) {
                Ok((c, p)) => {
                    self.global_sequence_chunk = Some(c);
                    *offset = p;
                },
                Err(e) => {
                    return Err(e);
                },
            }
        } else if tag == TEXS_TAG {
            match TextureChunk::decode(data, *offset) {
                Ok((c, p)) => {
                    self.texture_chunk = Some(c);
                    *offset = p;
                },
                Err(e) => {
                    return Err(e);
                },
            }
        } else if tag == TXAN_TAG {
            match TextureAnimationChunk::decode(data, *offset) {
                Ok((c, p)) => {
                    self.texture_animation_chunk = Some(c);
                    *offset = p;
                },
                Err(e) => {
                    return Err(e);
                },
            }
        } else if tag == GEOS_TAG {
            match GeosetChunk::decode(data, *offset) {
                Ok((c, p)) => {
                    self.geoset_chunk = Some(c);
                    *offset = p;
                },
                Err(e) => {
                    return Err(e);
                },
            }
        } else if tag == GEOA_TAG {
            match GeosetAnimationChunk::decode(data, *offset) {
                Ok((c, p)) => {
                    self.geoset_animation_chunk = Some(c);
                    *offset = p;
                },
                Err(e) => {
                    return Err(e);
                },
            }
        } else if tag == BONE_TAG {
            match BoneChunk::decode(data, *offset) {
                Ok((c, p)) => {
                    self.bone_chunk = Some(c);
                    *offset = p;
                },
                Err(e) => {
                    return Err(e);
                },
            }
        } else if tag == LITE_TAG {
            match LightChunk::decode(data, *offset) {
                Ok((c, p)) => {
                    self.light_chunk = Some(c);
                    *offset = p;
                },
                Err(e) => {
                    return Err(e);
                },
            }
        } else if tag == HELP_TAG {
            match HelperChunk::decode(data, *offset) {
                Ok((c, p)) => {
                    self.helper_chunk = Some(c);
                    *offset = p;
                },
                Err(e) => {
                    return Err(e);
                },
            }
        } else if tag == ATCH_TAG {
            match AttachmentChunk::decode(data, *offset) {
                Ok((c, p)) => {
                    self.attachment_chunk = Some(c);
                    *offset = p;
                },
                Err(e) => {
                    return Err(e);
                },
            }
        } else if tag == PIVT_TAG {
            match PivotPointChunk::decode(data, *offset) {
                Ok((c, p)) => {
                    self.pivot_point_chunk = Some(c);
                    *offset = p;
                },
                Err(e) => {
                    return Err(e);
                },
            }
        } else if tag == PREM_TAG {
            match ParticleEmitterChunk::decode(data, *offset) {
                Ok((c, p)) => {
                    self.particle_emitter_chunk = Some(c);
                    *offset = p;
                },
                Err(e) => {
                    return Err(e);
                },
            }
        } else if tag == PRE2_TAG {
            match ParticleEmitter2Chunk::decode(data, *offset) {
                Ok((c, p)) => {
                    self.particle_emitter2_chunk = Some(c);
                    *offset = p;
                },
                Err(e) => {
                    return Err(e);
                },
            }
        } else if tag == RIBB_TAG {
            match RibbonEmitterChunk::decode(data, *offset) {
                Ok((c, p)) => {
                    self.ribbon_emitter_chunk = Some(c);
                    *offset = p;
                },
                Err(e) => {
                    return Err(e);
                },
            }
        } else if tag == EVTS_TAG {
            match EventObjectChunk::decode(data, *offset) {
                Ok((c, p)) => {
                    self.event_object_chunk = Some(c);
                    *offset = p;
                },
                Err(e) => {
                    return Err(e);
                },
            }
        } else if tag == CAMS_TAG {
            match CameraChunk::decode(data, *offset) {
                Ok((c, p)) => {
                    self.camera_chunk = Some(c);
                    *offset = p;
                },
                Err(e) => {
                    return Err(e);
                },
            }
        } else if tag == CLID_TAG {
            match CollisionShapeChunk::decode(data, *offset) {
                Ok((c, p)) => {
                    self.collision_shape_chunk = Some(c);
                    *offset = p;
                },
                Err(e) => {
                    return Err(e);
                },
            }
        } else if tag == MTLS_TAG {
            match MaterialChunk::decode(data, *offset) {
                Ok((c, p)) => {
                    self.material_chunk = Some(c);
                    *offset = p;
                },
                Err(e) => {
                    return Err(e);
                },
            }
        } else {
            return Err(FormatError::UnknownChunkTag(tag));
        }
        Ok(())
    }
}

} // verus!
