use vstd::prelude::*;

use crate::handle::Handle;
use crate::text::same_text;

verus! {

/// The surface materials that decide which sound an impact or a footstep makes.
#[derive(Copy, Clone, PartialEq, Eq, Structural, Debug, Hash)]
pub enum MaterialType {
    Grass,
    Metal,
    Stone,
    Wood,
    Chain,
    Flesh,
}

/// The kinds of environment sounds.
#[derive(Copy, Clone, PartialEq, Eq, Structural, Debug, Hash)]
pub enum SoundKind {
    Impact,
    FootStep,
}

/// The triangles `start..end` of a collider's geometry are made of `material`.
#[derive(Copy, Clone, PartialEq, Eq, Structural, Debug)]
pub struct TriangleRange {
    pub start: u32,
    pub end: u32,
    pub material: MaterialType,
}

/// One surface of a mesh: how many triangles it has and the material its texture maps to,
/// if the texture has a mapping.
#[derive(Copy, Clone, PartialEq, Eq, Structural, Debug)]
pub struct SurfaceInfo {
    pub triangle_count: u32,
    pub material: Option<MaterialType>,
}

/// Sum of the triangle counts of the first `n` surfaces.
pub open spec fn triangles_before(surfaces: Seq<SurfaceInfo>, n: int) -> nat
    decreases n,
{
    if n <= 0 {
        0
    } else {
        triangles_before(surfaces, n - 1) + surfaces[n - 1].triangle_count as nat
    }
}

/// The ranges of the surfaces that have a material, in order, each starting where the
/// surfaces before it end.
pub open spec fn spec_ranges(surfaces: Seq<SurfaceInfo>) -> Seq<TriangleRange>
    decreases surfaces.len(),
{
    if surfaces.len() == 0 {
        Seq::empty()
    } else {
        let n = surfaces.len() - 1;
        let rest = spec_ranges(surfaces.subrange(0, n));
        match surfaces[n].material {
            Some(m) => rest.push(
                TriangleRange {
                    start: triangles_before(surfaces, n) as u32,
                    end: triangles_before(surfaces, n + 1) as u32,
                    material: m,
                },
            ),
            None => rest,
        }
    }
}

proof fn lemma_triangles_before_prefix(surfaces: Seq<SurfaceInfo>, k: int, n: int)
    requires
        0 <= n <= k <= surfaces.len(),
    ensures
        triangles_before(surfaces.subrange(0, k), n) == triangles_before(surfaces, n),
    decreases n,
{
    if n > 0 {
        lemma_triangles_before_prefix(surfaces, k, n - 1);
    }
}

proof fn lemma_triangles_before_monotone(surfaces: Seq<SurfaceInfo>, a: int, b: int)
    requires
        0 <= a <= b <= surfaces.len(),
    ensures
        triangles_before(surfaces, a) <= triangles_before(surfaces, b),
    decreases b,
{
    if a < b {
        lemma_triangles_before_monotone(surfaces, a, b - 1);
    }
}

/// Lays the surfaces of a collider's meshes end to end and records the triangle range of
/// every surface whose material is known.
pub fn build_triangle_ranges(surfaces: &[SurfaceInfo]) -> (r: Vec<TriangleRange>)
    requires
        triangles_before(surfaces@, surfaces@.len() as int) <= u32::MAX,
    ensures
        r@ == spec_ranges(surfaces@),
{
    let mut ranges: Vec<TriangleRange> = Vec::new();
    let mut triangle_offset: u32 = 0;
    let mut i: usize = 0;
    while i < surfaces.len()
        invariant
            i <= surfaces@.len(),
            triangles_before(surfaces@, surfaces@.len() as int) <= u32::MAX,
            triangle_offset == triangles_before(surfaces@, i as int),
            ranges@ == spec_ranges(surfaces@.subrange(0, i as int)),
        decreases surfaces@.len() - i,
    {
        proof {
            lemma_triangles_before_monotone(surfaces@, i + 1, surfaces@.len() as int);
            let next = surfaces@.subrange(0, i + 1);
            assert(next.subrange(0, i as int) =~= surfaces@.subrange(0, i as int));
            lemma_triangles_before_prefix(surfaces@, i + 1, i as int);
            lemma_triangles_before_prefix(surfaces@, i + 1, i + 1);
        }
        let count = surfaces[i].triangle_count;
        match surfaces[i].material {
            Some(material) => {
                ranges.push(
                    TriangleRange {
                        start: triangle_offset,
                        end: triangle_offset + count,
                        material,
                    },
                );
            },
            None => {},
        }
        triangle_offset = triangle_offset + count;
        i = i + 1;
    }
    proof {
        assert(surfaces@.subrange(0, i as int) =~= surfaces@);
    }
    ranges
}

/// Where a ray hit a collider: a face of a triangle mesh, or some other feature that gives
/// no triangle.
#[derive(Copy, Clone, PartialEq, Eq, Structural, Debug)]
pub enum FeatureId {
    Face(u32),
    Other,
}

/// The material of the hit point: the first range holding the hit face, or for hits that
/// give no face, the first range's material.
pub open spec fn spec_material_of(ranges: Seq<TriangleRange>, feature: FeatureId) -> Option<MaterialType>
    decreases ranges.len(),
{
    match feature {
        FeatureId::Face(idx) => if ranges.len() == 0 {
            None
        } else if ranges[0].start <= idx < ranges[0].end {
            Some(ranges[0].material)
        } else {
            spec_material_of(ranges.drop_first(), feature)
        },
        FeatureId::Other => if ranges.len() == 0 {
            None
        } else {
            Some(ranges[0].material)
        },
    }
}

/// Finds the material of the point a ray hit on a collider.
pub fn material_of(ranges: &[TriangleRange], feature: FeatureId) -> (r: Option<MaterialType>)
    ensures
        r == spec_material_of(ranges@, feature),
{
    match feature {
        FeatureId::Face(idx) => {
            let mut i: usize = 0;
            proof {
                assert(ranges@.subrange(0, ranges@.len() as int) =~= ranges@);
            }
            while i < ranges.len()
                invariant
                    i <= ranges@.len(),
                    feature == FeatureId::Face(idx),
                    spec_material_of(ranges@, feature) == spec_material_of(
                        ranges@.subrange(i as int, ranges@.len() as int),
                        feature,
                    ),
                decreases ranges@.len() - i,
            {
                let ghost rest = ranges@.subrange(i as int, ranges@.len() as int);
                if ranges[i].start <= idx && idx < ranges[i].end {
                    proof {
                        assert(rest[0] == ranges@[i as int]);
                    }
                    return Some(ranges[i].material);
                }
                proof {
                    assert(rest[0] == ranges@[i as int]);
                    assert(rest.drop_first() =~= ranges@.subrange(i + 1, ranges@.len() as int));
                }
                i = i + 1;
            }
            proof {
                assert(ranges@.subrange(i as int, ranges@.len() as int).len() == 0);
            }
            None
        },
        FeatureId::Other => {
            if ranges.len() == 0 {
                None
            } else {
                Some(ranges[0].material)
            }
        },
    }
}

/// The colliders and their ranges as plain values.
pub open spec fn sound_map_view(v: Seq<(Handle, Vec<TriangleRange>)>) -> Seq<(Handle, Seq<TriangleRange>)> {
    v.map_values(|e: (Handle, Vec<TriangleRange>)| (e.0, e.1@))
}

/// For each collider, the triangle ranges of its geometry.
pub struct SoundMap {
    pub sound_map: Vec<(Handle, Vec<TriangleRange>)>,
}

impl SoundMap {
    /// No collider is recorded twice.
    pub open spec fn well_formed(&self) -> bool {
        unique_keys(sound_map_view(self.sound_map@))
    }

    pub fn new() -> (r: Self)
        ensures
            r.sound_map@.len() == 0,
            r.well_formed(),
    {
        SoundMap { sound_map: Vec::new() }
    }

    /// Records the triangle ranges of a collider's geometry, laid out from its surfaces;
    /// a collider recorded before gets the new ranges in place of the old ones.
    pub fn insert_collider(&mut self, collider: Handle, surfaces: &[SurfaceInfo])
        requires
            triangles_before(surfaces@, surfaces@.len() as int) <= u32::MAX,
        ensures
            ({
                let before = sound_map_view(old(self).sound_map@);
                let i = first_key(before, collider);
                sound_map_view(final(self).sound_map@) == if i >= 0 {
                    before.update(i, (collider, spec_ranges(surfaces@)))
                } else {
                    before.push((collider, spec_ranges(surfaces@)))
                }
            }),
            old(self).well_formed() ==> final(self).well_formed(),
    {
        let ranges = build_triangle_ranges(surfaces);
        let ghost before = sound_map_view(self.sound_map@);
        let mut i: usize = 0;
        while i < self.sound_map.len()
            invariant
                i <= self.sound_map@.len(),
                before == sound_map_view(self.sound_map@),
                before == sound_map_view(old(self).sound_map@),
                ranges@ == spec_ranges(surfaces@),
                forall|j: int| 0 <= j < i ==> self.sound_map@[j].0 != collider,
            decreases self.sound_map@.len() - i,
        {
            if self.sound_map[i].0 == collider {
                proof {
                    assert forall|j: int| 0 <= j < i implies before[j].0 != collider by {
                        assert(before[j].0 == self.sound_map@[j].0);
                    }
                    lemma_first_key_scan(before, collider, i as int);
                }
                self.sound_map.set(i, (collider, ranges));
                proof {
                    assert(sound_map_view(self.sound_map@) =~= before.update(i as int, (collider, spec_ranges(surfaces@))));
                    let after = sound_map_view(self.sound_map@);
                    if unique_keys(before) {
                        assert forall|a: int, b: int| 0 <= a < after.len() && 0 <= b < after.len() && a != b
                            implies #[trigger] after[a].0 != #[trigger] after[b].0 by {
                            assert(after[a].0 == before[a].0);
                            assert(after[b].0 == before[b].0);
                        }
                    }
                }
                return;
            }
            i = i + 1;
        }
        proof {
            assert forall|j: int| 0 <= j < i implies before[j].0 != collider by {
                assert(before[j].0 == self.sound_map@[j].0);
            }
            lemma_first_key_scan(before, collider, i as int);
        }
        self.sound_map.push((collider, ranges));
        proof {
            assert(sound_map_view(self.sound_map@) =~= before.push((collider, spec_ranges(surfaces@))));
            let after = sound_map_view(self.sound_map@);
            if unique_keys(before) {
                assert forall|a: int, b: int| 0 <= a < after.len() && 0 <= b < after.len() && a != b
                    implies #[trigger] after[a].0 != #[trigger] after[b].0 by {
                    if a < before.len() {
                        assert(after[a].0 == before[a].0);
                    }
                    if b < before.len() {
                        assert(after[b].0 == before[b].0);
                    }
                }
            }
        }
    }

    /// The ranges recorded for a collider (the first record when there are several).
    pub fn ranges_of(&self, collider: Handle) -> (r: Option<&[TriangleRange]>)
        ensures
            r is Some <==> exists|i: int|
                0 <= i < self.sound_map@.len() && self.sound_map@[i].0 == collider,
            r matches Some(s) ==> exists|i: int|
                0 <= i < self.sound_map@.len() && self.sound_map@[i].0 == collider && s@
                    == self.sound_map@[i].1@ && forall|j: int|
                    0 <= j < i ==> self.sound_map@[j].0 != collider,
            self.well_formed() ==> (r matches Some(s) ==> forall|i: int|
                0 <= i < self.sound_map@.len() && self.sound_map@[i].0 == collider ==> s@
                    == #[trigger] self.sound_map@[i].1@),
    {
        let mut i: usize = 0;
        while i < self.sound_map.len()
            invariant
                i <= self.sound_map@.len(),
                forall|j: int| 0 <= j < i ==> self.sound_map@[j].0 != collider,
            decreases self.sound_map@.len() - i,
        {
            if self.sound_map[i].0 == collider {
                proof {
                    let v = sound_map_view(self.sound_map@);
                    if self.well_formed() {
                        assert forall|k: int| 0 <= k < self.sound_map@.len() && self.sound_map@[k].0 == collider
                            implies self.sound_map@[i as int].1@ == #[trigger] self.sound_map@[k].1@ by {
                            assert(v[k].0 == self.sound_map@[k].0);
                            assert(v[i as int].0 == self.sound_map@[i as int].0);
                            if k != i {
                                assert(v[k].0 != v[i as int].0);
                            }
                        }
                    }
                }
                return Some(self.sound_map[i].1.as_slice());
            }
            i = i + 1;
        }
        None
    }
}

/// Why no environment sound can be chosen for a hit.
#[derive(Copy, Clone, PartialEq, Eq, Structural, Debug)]
pub enum SoundLookupError {
    /// The material of the hit point is unknown.
    UnknownMaterial,
    /// The sound base has no sounds for the material.
    NoMaterialMapping(MaterialType),
    /// The sound base has no sounds of the kind for the material.
    NoKindMapping(SoundKind),
}

/// Which sounds each material makes, and which material each texture shows.
pub struct SoundBase {
    pub material_to_sound: Vec<(MaterialType, Vec<(SoundKind, Vec<String>)>)>,
    pub texture_to_material: Vec<(String, MaterialType)>,
}

/// The first position of `key` among the keys of `keys`, or -1.
pub open spec fn first_key<K, V>(entries: Seq<(K, V)>, key: K) -> int
    decreases entries.len(),
{
    if entries.len() == 0 {
        -1
    } else if entries[0].0 == key {
        0
    } else {
        let r = first_key(entries.drop_first(), key);
        if r < 0 {
            -1
        } else {
            r + 1
        }
    }
}

/// No key occurs twice among the entries.
pub open spec fn unique_keys<K, V>(entries: Seq<(K, V)>) -> bool {
    forall|i: int, j: int| 0 <= i < entries.len() && 0 <= j < entries.len() && i != j
        ==> #[trigger] entries[i].0 != #[trigger] entries[j].0
}

/// Among entries whose keys are unique, a lookup by key finds the only entry with that key.
pub proof fn lemma_unique_key_lookup<K, V>(entries: Seq<(K, V)>, key: K, i: int)
    requires
        unique_keys(entries),
        0 <= i < entries.len(),
        entries[i].0 == key,
    ensures
        first_key(entries, key) == i,
{
    lemma_first_key_bounds(entries, key);
    let f = first_key(entries, key);
    if f < 0 {
        assert(entries[i].0 != key);
    } else if f != i {
        assert(entries[f].0 != entries[i].0);
    }
}

proof fn lemma_first_key_bounds<K, V>(entries: Seq<(K, V)>, key: K)
    ensures
        -1 <= first_key(entries, key) < entries.len(),
        first_key(entries, key) >= 0 ==> entries[first_key(entries, key)].0 == key,
        first_key(entries, key) < 0 ==> forall|i: int| 0 <= i < entries.len() ==> entries[i].0 != key,
    decreases entries.len(),
{
    if entries.len() > 0 {
        lemma_first_key_bounds(entries.drop_first(), key);
        if entries[0].0 != key && first_key(entries, key) < 0 {
            assert forall|i: int| 0 <= i < entries.len() implies entries[i].0 != key by {
                if i > 0 {
                    assert(entries[i] == entries.drop_first()[i - 1]);
                }
            }
        }
    }
}

/// Walking the keys from the front finds `first_key`.
proof fn lemma_first_key_scan<K, V>(entries: Seq<(K, V)>, key: K, i: int)
    requires
        0 <= i <= entries.len(),
        forall|j: int| 0 <= j < i ==> entries[j].0 != key,
    ensures
        i < entries.len() && entries[i].0 == key ==> first_key(entries, key) == i,
        i == entries.len() ==> first_key(entries, key) == -1,
    decreases i,
{
    if i > 0 {
        let rest = entries.drop_first();
        assert forall|j: int| 0 <= j < i - 1 implies rest[j].0 != key by {
            assert(rest[j] == entries[j + 1]);
        }
        if i < entries.len() && entries[i].0 == key {
            assert(rest[i - 1] == entries[i]);
        }
        lemma_first_key_scan(rest, key, i - 1);
    } else if entries.len() > 0 && i == 0 {
    }
}

fn find_sound_list<'a>(lists: &'a Vec<(SoundKind, Vec<String>)>, kind: SoundKind) -> (r: Option<&'a Vec<String>>)
    ensures
        ({
            let k = first_key(lists@, kind);
            &&& k < 0 ==> r.is_none()
            &&& k >= 0 ==> r == Some(&lists@[k].1)
        }),
{
    let mut i: usize = 0;
    while i < lists.len()
        invariant
            i <= lists@.len(),
            forall|j: int| 0 <= j < i ==> lists@[j].0 != kind,
        decreases lists@.len() - i,
    {
        if lists[i].0 == kind {
            proof {
                lemma_first_key_scan(lists@, kind, i as int);
            }
            return Some(&lists[i].1);
        }
        i = i + 1;
    }
    proof {
        lemma_first_key_scan(lists@, kind, i as int);
    }
    None
}

/// The textures and their materials as plain values.
pub open spec fn texture_view(v: Seq<(String, MaterialType)>) -> Seq<(Seq<char>, MaterialType)> {
    v.map_values(|e: (String, MaterialType)| (e.0@, e.1))
}

fn distinct_materials(v: &Vec<(MaterialType, Vec<(SoundKind, Vec<String>)>)>) -> (r: bool)
    ensures
        r == unique_keys(v@),
{
    let mut i: usize = 0;
    while i < v.len()
        invariant
            i <= v@.len(),
            forall|a: int, b: int| 0 <= a < i && 0 <= b < i && a != b ==> #[trigger] v@[a].0 != #[trigger] v@[b].0,
        decreases v@.len() - i,
    {
        let mut j: usize = 0;
        while j < i
            invariant
                i < v@.len(),
                j <= i,
                forall|b: int| 0 <= b < j ==> v@[i as int].0 != #[trigger] v@[b].0,
            decreases i - j,
        {
            if v[i].0 == v[j].0 {
                return false;
            }
            j = j + 1;
        }
        i = i + 1;
    }
    true
}

fn distinct_sound_kinds(v: &Vec<(SoundKind, Vec<String>)>) -> (r: bool)
    ensures
        r == unique_keys(v@),
{
    let mut i: usize = 0;
    while i < v.len()
        invariant
            i <= v@.len(),
            forall|a: int, b: int| 0 <= a < i && 0 <= b < i && a != b ==> #[trigger] v@[a].0 != #[trigger] v@[b].0,
        decreases v@.len() - i,
    {
        let mut j: usize = 0;
        while j < i
            invariant
                i < v@.len(),
                j <= i,
                forall|b: int| 0 <= b < j ==> v@[i as int].0 != #[trigger] v@[b].0,
            decreases i - j,
        {
            if v[i].0 == v[j].0 {
                return false;
            }
            j = j + 1;
        }
        i = i + 1;
    }
    true
}

fn distinct_textures(v: &Vec<(String, MaterialType)>) -> (r: bool)
    ensures
        r == unique_keys(texture_view(v@)),
{
    let ghost t = texture_view(v@);
    let mut i: usize = 0;
    while i < v.len()
        invariant
            i <= v@.len(),
            t == texture_view(v@),
            forall|a: int, b: int| 0 <= a < i && 0 <= b < i && a != b ==> #[trigger] t[a].0 != #[trigger] t[b].0,
        decreases v@.len() - i,
    {
        let mut j: usize = 0;
        while j < i
            invariant
                i < v@.len(),
                j <= i,
                t == texture_view(v@),
                forall|b: int| 0 <= b < j ==> t[i as int].0 != #[trigger] t[b].0,
            decreases i - j,
        {
            if same_text(v[i].0.as_str(), v[j].0.as_str()) {
                proof {
                    assert(t[i as int].0 == t[j as int].0);
                }
                return false;
            }
            j = j + 1;
        }
        i = i + 1;
    }
    true
}

impl SoundBase {
    /// No material, no sound kind of a material and no texture is listed twice.
    pub open spec fn well_formed(&self) -> bool {
        &&& unique_keys(self.material_to_sound@)
        &&& forall|i: int| 0 <= i < self.material_to_sound@.len() ==> unique_keys(#[trigger] self.material_to_sound@[i].1@)
        &&& unique_keys(texture_view(self.texture_to_material@))
    }

    /// Whether no material, no sound kind of a material and no texture is listed twice.
    pub fn has_unique_keys(&self) -> (r: bool)
        ensures
            r == self.well_formed(),
    {
        if !distinct_materials(&self.material_to_sound) || !distinct_textures(&self.texture_to_material) {
            return false;
        }
        let mut i: usize = 0;
        while i < self.material_to_sound.len()
            invariant
                i <= self.material_to_sound@.len(),
                forall|a: int| 0 <= a < i ==> unique_keys(#[trigger] self.material_to_sound@[a].1@),
            decreases self.material_to_sound@.len() - i,
        {
            if !distinct_sound_kinds(&self.material_to_sound[i].1) {
                return false;
            }
            i = i + 1;
        }
        true
    }

    /// The sounds of a kind that a material makes.
    pub fn sounds_for(&self, material: MaterialType, kind: SoundKind) -> (r: Result<&Vec<String>, SoundLookupError>)
        ensures
            ({
                let m = first_key(self.material_to_sound@, material);
                if m < 0 {
                    r == Err::<&Vec<String>, SoundLookupError>(SoundLookupError::NoMaterialMapping(material))
                } else {
                    let lists = self.material_to_sound@[m].1@;
                    let k = first_key(lists, kind);
                    if k < 0 {
                        r == Err::<&Vec<String>, SoundLookupError>(SoundLookupError::NoKindMapping(kind))
                    } else {
                        r == Ok::<&Vec<String>, SoundLookupError>(&lists[k].1)
                    }
                }
            }),
    {
        let mut i: usize = 0;
        while i < self.material_to_sound.len()
            invariant
                i <= self.material_to_sound@.len(),
                forall|j: int| 0 <= j < i ==> self.material_to_sound@[j].0 != material,
            decreases self.material_to_sound@.len() - i,
        {
            if self.material_to_sound[i].0 == material {
                proof {
                    lemma_first_key_scan(self.material_to_sound@, material, i as int);
                }
                return match find_sound_list(&self.material_to_sound[i].1, kind) {
                    Some(list) => Ok(list),
                    None => Err(SoundLookupError::NoKindMapping(kind)),
                };
            }
            i = i + 1;
        }
        proof {
            lemma_first_key_scan(self.material_to_sound@, material, i as int);
        }
        Err(SoundLookupError::NoMaterialMapping(material))
    }

    /// The material a texture shows, if the texture has a mapping.
    pub fn material_of_texture(&self, path: &String) -> (r: Option<MaterialType>)
        ensures
            r is Some <==> exists|i: int|
                0 <= i < self.texture_to_material@.len() && self.texture_to_material@[i].0@ == path@,
            r matches Some(m) ==> exists|i: int|
                0 <= i < self.texture_to_material@.len() && self.texture_to_material@[i].0@ == path@
                    && self.texture_to_material@[i].1 == m && forall|j: int|
                    0 <= j < i ==> self.texture_to_material@[j].0@ != path@,
            self.well_formed() ==> (r matches Some(m) ==> forall|i: int|
                0 <= i < self.texture_to_material@.len() && self.texture_to_material@[i].0@ == path@ ==> m
                    == #[trigger] self.texture_to_material@[i].1),
    {
        let mut i: usize = 0;
        while i < self.texture_to_material.len()
            invariant
                i <= self.texture_to_material@.len(),
                forall|j: int| 0 <= j < i ==> self.texture_to_material@[j].0@ != path@,
            decreases self.texture_to_material@.len() - i,
        {
            if self.texture_to_material[i].0 == *path {
                proof {
                    let v = texture_view(self.texture_to_material@);
                    if self.well_formed() {
                        assert forall|k: int| 0 <= k < self.texture_to_material@.len()
                            && self.texture_to_material@[k].0@ == path@
                            implies self.texture_to_material@[i as int].1 == #[trigger] self.texture_to_material@[k].1 by {
                            assert(v[k].0 == self.texture_to_material@[k].0@);
                            assert(v[i as int].0 == self.texture_to_material@[i as int].0@);
                            if k != i {
                                assert(v[k].0 != v[i as int].0);
                            }
                        }
                    }
                }
                return Some(self.texture_to_material[i].1);
            }
            i = i + 1;
        }
        None
    }

    /// The sounds to choose from for a hit on a collider: the material comes from the
    /// collider's triangle ranges and the hit feature, the sounds from the sound base.
    pub fn environment_sounds(&self, sound_map: &SoundMap, collider: Handle, feature: FeatureId, kind: SoundKind) -> (r: Result<&Vec<String>, SoundLookupError>)
        ensures
            ({
                let found = exists|i: int| 0 <= i < sound_map.sound_map@.len() && sound_map.sound_map@[i].0 == collider;
                !found ==> r == Err::<&Vec<String>, SoundLookupError>(SoundLookupError::UnknownMaterial)
            }),
            ({
                let i = first_key(sound_map.sound_map@, collider);
                i >= 0 ==> match spec_material_of(sound_map.sound_map@[i].1@, feature) {
                    None => r == Err::<&Vec<String>, SoundLookupError>(SoundLookupError::UnknownMaterial),
                    Some(m) => ({
                        let mi = first_key(self.material_to_sound@, m);
                        if mi < 0 {
                            r == Err::<&Vec<String>, SoundLookupError>(SoundLookupError::NoMaterialMapping(m))
                        } else {
                            let lists = self.material_to_sound@[mi].1@;
                            let k = first_key(lists, kind);
                            if k < 0 {
                                r == Err::<&Vec<String>, SoundLookupError>(SoundLookupError::NoKindMapping(kind))
                            } else {
                                r == Ok::<&Vec<String>, SoundLookupError>(&lists[k].1)
                            }
                        }
                    }),
                }
            }),
    {
        proof {
            lemma_first_key_bounds(sound_map.sound_map@, collider);
        }
        let material = match sound_map.ranges_of(collider) {
            Some(ranges) => {
                proof {
                    let i = choose|i: int| 0 <= i < sound_map.sound_map@.len() && sound_map.sound_map@[i].0 == collider && ranges@
                        == sound_map.sound_map@[i].1@ && forall|j: int|
                        0 <= j < i ==> sound_map.sound_map@[j].0 != collider;
                    lemma_first_key_scan(sound_map.sound_map@, collider, i);
                }
                material_of(ranges, feature)
            },
            None => None,
        };
        match material {
            Some(m) => self.sounds_for(m, kind),
            None => Err(SoundLookupError::UnknownMaterial),
        }
    }
}

} // verus!
