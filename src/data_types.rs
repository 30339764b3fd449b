//! Fixed-width geometry values. Float components are held as their IEEE-754
//! bit patterns, so that decoding and encoding are exact.

use crate::codec::{lemma_sub, lemma_u32_bytes, read_u32, u32_at, u32_bytes, write_u32, Element};
use vstd::prelude::*;

verus! {

broadcast use vstd::seq::group_seq_axioms;

#[derive(PartialEq, Eq, Structural, Debug, Clone, Copy)]
pub struct Vec2 {
    pub x: u32,
    pub y: u32,
}

#[derive(PartialEq, Eq, Structural, Debug, Clone, Copy)]
pub struct Vec3 {
    pub x: u32,
    pub y: u32,
    pub z: u32,
}

#[derive(PartialEq, Eq, Structural, Debug, Clone, Copy)]
pub struct Vec4 {
    pub x: u32,
    pub y: u32,
    pub z: u32,
    pub w: u32,
}

#[derive(PartialEq, Eq, Structural, Debug, Clone, Copy)]
pub struct Color {
    pub b: u32,
    pub g: u32,
    pub r: u32,
}

#[derive(PartialEq, Eq, Structural, Debug, Clone, Copy)]
pub struct Extent {
    pub bounds_radius: u32,
    pub minimum: Vec3,
    pub maximum: Vec3,
}

impl Element for Vec2 {
    open spec fn width() -> nat {
        8
    }

    open spec fn parse_at(b: Seq<u8>, pos: int) -> Vec2 {
        Vec2 { x: u32_at(b, pos), y: u32_at(b, pos + 4) }
    }

    open spec fn to_bytes(self) -> Seq<u8> {
        u32_bytes(self.x) + u32_bytes(self.y)
    }

    fn byte_width() -> usize {
        8
    }

    fn read_at(src: &[u8], pos: usize) -> Vec2 {
        Vec2 { x: read_u32(src, pos), y: read_u32(src, pos + 4) }
    }

    fn write_to(&self, out: &mut Vec<u8>) {
        write_u32(out, self.x);
        write_u32(out, self.y);
    }

    proof fn lemma_width() {
    }

    proof fn lemma_codec(self, b: Seq<u8>, pos: int) {
        lemma_u32_bytes(self.x);
        lemma_u32_bytes(self.y);
        let w = self.to_bytes();
        if 0 <= pos && pos + 8 <= b.len() && b.subrange(pos, pos + 8) == w {
            lemma_sub(b, pos, w, 0, 4);
            lemma_sub(b, pos, w, 4, 4);
            assert(w.subrange(0, 4) =~= u32_bytes(self.x));
            assert(w.subrange(4, 8) =~= u32_bytes(self.y));
        }
    }
}

impl Element for Vec3 {
    open spec fn width() -> nat {
        12
    }

    open spec fn parse_at(b: Seq<u8>, pos: int) -> Vec3 {
        Vec3 { x: u32_at(b, pos), y: u32_at(b, pos + 4), z: u32_at(b, pos + 8) }
    }

    open spec fn to_bytes(self) -> Seq<u8> {
        u32_bytes(self.x) + u32_bytes(self.y) + u32_bytes(self.z)
    }

    fn byte_width() -> usize {
        12
    }

    fn read_at(src: &[u8], pos: usize) -> Vec3 {
        Vec3 { x: read_u32(src, pos), y: read_u32(src, pos + 4), z: read_u32(src, pos + 8) }
    }

    fn write_to(&self, out: &mut Vec<u8>) {
        write_u32(out, self.x);
        write_u32(out, self.y);
        write_u32(out, self.z);
    }

    proof fn lemma_width() {
    }

    proof fn lemma_codec(self, b: Seq<u8>, pos: int) {
        lemma_u32_bytes(self.x);
        lemma_u32_bytes(self.y);
        lemma_u32_bytes(self.z);
        let w = self.to_bytes();
        if 0 <= pos && pos + 12 <= b.len() && b.subrange(pos, pos + 12) == w {
            lemma_sub(b, pos, w, 0, 4);
            lemma_sub(b, pos, w, 4, 4);
            lemma_sub(b, pos, w, 8, 4);
            assert(w.subrange(0, 4) =~= u32_bytes(self.x));
            assert(w.subrange(4, 8) =~= u32_bytes(self.y));
            assert(w.subrange(8, 12) =~= u32_bytes(self.z));
        }
    }
}

impl Element for Vec4 {
    open spec fn width() -> nat {
        16
    }

    open spec fn parse_at(b: Seq<u8>, pos: int) -> Vec4 {
        Vec4 {
            x: u32_at(b, pos),
            y: u32_at(b, pos + 4),
            z: u32_at(b, pos + 8),
            w: u32_at(b, pos + 12),
        }
    }

    open spec fn to_bytes(self) -> Seq<u8> {
        u32_bytes(self.x) + u32_bytes(self.y) + u32_bytes(self.z) + u32_bytes(self.w)
    }

    fn byte_width() -> usize {
        16
    }

    fn read_at(src: &[u8], pos: usize) -> Vec4 {
        Vec4 {
            x: read_u32(src, pos),
            y: read_u32(src, pos + 4),
            z: read_u32(src, pos + 8),
            w: read_u32(src, pos + 12),
        }
    }

    fn write_to(&self, out: &mut Vec<u8>) {
        write_u32(out, self.x);
        write_u32(out, self.y);
        write_u32(out, self.z);
        write_u32(out, self.w);
    }

    proof fn lemma_width() {
    }

    proof fn lemma_codec(self, b: Seq<u8>, pos: int) {
        lemma_u32_bytes(self.x);
        lemma_u32_bytes(self.y);
        lemma_u32_bytes(self.z);
        lemma_u32_bytes(self.w);
        let w = self.to_bytes();
        if 0 <= pos && pos + 16 <= b.len() && b.subrange(pos, pos + 16) == w {
            lemma_sub(b, pos, w, 0, 4);
            lemma_sub(b, pos, w, 4, 4);
            lemma_sub(b, pos, w, 8, 4);
            lemma_sub(b, pos, w, 12, 4);
            assert(w.subrange(0, 4) =~= u32_bytes(self.x));
            assert(w.subrange(4, 8) =~= u32_bytes(self.y));
            assert(w.subrange(8, 12) =~= u32_bytes(self.z));
            assert(w.subrange(12, 16) =~= u32_bytes(self.w));
        }
    }
}

impl Element for Color {
    open spec fn width() -> nat {
        12
    }

    open spec fn parse_at(b: Seq<u8>, pos: int) -> Color {
        Color { b: u32_at(b, pos), g: u32_at(b, pos + 4), r: u32_at(b, pos + 8) }
    }

    open spec fn to_bytes(self) -> Seq<u8> {
        u32_bytes(self.b) + u32_bytes(self.g) + u32_bytes(self.r)
    }

    fn byte_width() -> usize {
        12
    }

    fn read_at(src: &[u8], pos: usize) -> Color {
        Color { b: read_u32(src, pos), g: read_u32(src, pos + 4), r: read_u32(src, pos + 8) }
    }

    fn write_to(&self, out: &mut Vec<u8>) {
        write_u32(out, self.b);
        write_u32(out, self.g);
        write_u32(out, self.r);
    }

    proof fn lemma_width() {
    }

    proof fn lemma_codec(self, b: Seq<u8>, pos: int) {
        lemma_u32_bytes(self.b);
        lemma_u32_bytes(self.g);
        lemma_u32_bytes(self.r);
        let w = self.to_bytes();
        if 0 <= pos && pos + 12 <= b.len() && b.subrange(pos, pos + 12) == w {
            lemma_sub(b, pos, w, 0, 4);
            lemma_sub(b, pos, w, 4, 4);
            lemma_sub(b, pos, w, 8, 4);
            assert(w.subrange(0, 4) =~= u32_bytes(self.b));
            assert(w.subrange(4, 8) =~= u32_bytes(self.g));
            assert(w.subrange(8, 12) =~= u32_bytes(self.r));
        }
    }
}

impl Element for Extent {
    open spec fn width() -> nat {
        28
    }

    open spec fn parse_at(b: Seq<u8>, pos: int) -> Extent {
        Extent {
            bounds_radius: u32_at(b, pos),
            minimum: Vec3::parse_at(b, pos + 4),
            maximum: Vec3::parse_at(b, pos + 16),
        }
    }

    open spec fn to_bytes(self) -> Seq<u8> {
        u32_bytes(self.bounds_radius) + self.minimum.to_bytes() + self.maximum.to_bytes()
    }

    fn byte_width() -> usize {
        28
    }

    fn read_at(src: &[u8], pos: usize) -> Extent {
        Extent {
            bounds_radius: read_u32(src, pos),
            minimum: Vec3::read_at(src, pos + 4),
            maximum: Vec3::read_at(src, pos + 16),
        }
    }

    fn write_to(&self, out: &mut Vec<u8>) {
        write_u32(out, self.bounds_radius);
        self.minimum.write_to(out);
        self.maximum.write_to(out);
    }

    proof fn lemma_width() {
    }

    proof fn lemma_codec(self, b: Seq<u8>, pos: int) {
        lemma_u32_bytes(self.bounds_radius);
        self.minimum.lemma_codec(b, pos + 4);
        self.maximum.lemma_codec(b, pos + 16);
        let w = self.to_bytes();
        if 0 <= pos && pos + 28 <= b.len() && b.subrange(pos, pos + 28) == w {
            lemma_sub(b, pos, w, 0, 4);
            lemma_sub(b, pos, w, 4, 12);
            lemma_sub(b, pos, w, 16, 12);
            assert(w.subrange(0, 4) =~= u32_bytes(self.bounds_radius));
            assert(w.subrange(4, 16) =~= self.minimum.to_bytes());
            assert(w.subrange(16, 28) =~= self.maximum.to_bytes());
        }
    }
}

} // verus!
