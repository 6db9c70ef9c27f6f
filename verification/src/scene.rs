//! The backdrop in the scene: on each completed load the entities that carry
//! the backdrop material are pointed at the new texture, and one is created
//! where there is none.

use crate::image::ImageHandle;
use crate::material::CubemapMaterial;
use vstd::prelude::*;

verus! {

/// The material slots of a scene, one per rendered entity that refers to a
/// backdrop material: the material where the reference resolves, nothing
/// where it does not.
pub type Slots = Seq<Option<CubemapMaterial>>;

/// The material of a backdrop that shows `texture`.
pub open spec fn backdrop_material(texture: ImageHandle) -> CubemapMaterial {
    CubemapMaterial { base_color_texture: Some(texture) }
}

/// The number of backdrop entities: the slots whose material resolves.
pub open spec fn backdrop_count(slots: Slots) -> nat
    decreases slots.len(),
{
    if slots.len() == 0 {
        0
    } else {
        backdrop_count(slots.drop_last()) + if slots.last() is Some {
            1nat
        } else {
            0nat
        }
    }
}

/// The slots after every resolved material has been pointed at `texture`.
pub open spec fn retextured(slots: Slots, texture: ImageHandle) -> Slots {
    Seq::new(
        slots.len(),
        |i: int|
            if slots[i] is Some {
                Some(backdrop_material(texture))
            } else {
                None
            },
    )
}

/// The slots after attachment: existing backdrops are reused; only where
/// there is none, one is added.
pub open spec fn attached(slots: Slots, texture: ImageHandle) -> Slots {
    if backdrop_count(slots) == 0 {
        slots.push(Some(backdrop_material(texture)))
    } else {
        retextured(slots, texture)
    }
}

/// Pointing the first `n` slots at a texture keeps the number of backdrops
/// among them.
proof fn lemma_retextured_prefix_count(slots: Slots, texture: ImageHandle, n: int)
    requires
        0 <= n <= slots.len(),
    ensures
        backdrop_count(retextured(slots, texture).take(n)) == backdrop_count(slots.take(n)),
    decreases n,
{
    if n > 0 {
        lemma_retextured_prefix_count(slots, texture, n - 1);
        assert(retextured(slots, texture).take(n).drop_last() =~= retextured(slots, texture).take(
            n - 1,
        ));
        assert(slots.take(n).drop_last() =~= slots.take(n - 1));
    }
}

/// The backdrops of the scene.
#[derive(Clone, Debug, PartialEq, Eq)]
pub struct BackdropScene {
    pub materials: Vec<Option<CubemapMaterial>>,
}

impl View for BackdropScene {
    type V = Slots;

    open spec fn view(&self) -> Slots {
        self.materials@
    }
}

impl BackdropScene {
    /// The number of backdrop entities in the scene.
    pub fn count(&self) -> (count: usize)
        ensures
            count == backdrop_count(self@),
    {
        let mut count: usize = 0;
        let mut i: usize = 0;
        while i < self.materials.len()
            invariant
                i <= self.materials.len(),
                count <= i,
                count == backdrop_count(self@.take(i as int)),
            decreases self.materials.len() - i,
        {
            assert(self@.take(i + 1).drop_last() =~= self@.take(i as int));
            if self.materials[i].is_some() {
                count = count + 1;
            }
            i = i + 1;
        }
        assert(self@.take(i as int) =~= self@);
        count
    }

    /// Attaches the freshly loaded `texture` to the scene: every backdrop
    /// that exists is pointed at it in place; where none exists, one is
    /// created. Returns whether one was created, for which the caller then
    /// spawns the enclosing geometry.
    pub fn attach(&mut self, texture: ImageHandle) -> (spawned: bool)
        ensures
            final(self)@ == attached(old(self)@, texture),
            spawned == (backdrop_count(old(self)@) == 0),
    {
        let material = CubemapMaterial { base_color_texture: Some(texture) };
        let mut updated = false;
        let mut i: usize = 0;
        while i < self.materials.len()
            invariant
                i <= self.materials.len(),
                self.materials.len() == old(self).materials.len(),
                material == backdrop_material(texture),
                updated == (backdrop_count(old(self)@.take(i as int)) > 0),
                forall|j: int|
                    0 <= j < i ==> self@[j] == #[trigger] retextured(old(self)@, texture)[j],
                forall|j: int| i <= j < self@.len() ==> self@[j] == #[trigger] old(self)@[j],
            decreases self.materials.len() - i,
        {
            assert(old(self)@.take(i + 1).drop_last() =~= old(self)@.take(i as int));
            if self.materials[i].is_some() {
                updated = true;
                self.materials.set(i, Some(material));
            }
            i = i + 1;
        }
        assert(old(self)@.take(i as int) =~= old(self)@);
        if !updated {
            assert(self@ =~= old(self)@) by {
                lemma_no_backdrop_retextured(old(self)@, texture);
            }
            self.materials.push(Some(material));
        } else {
            assert(self@ =~= retextured(old(self)@, texture));
        }
        !updated
    }
}

/// Where no slot resolves, pointing the slots at a texture changes nothing.
proof fn lemma_no_backdrop_retextured(slots: Slots, texture: ImageHandle)
    requires
        backdrop_count(slots) == 0,
    ensures
        retextured(slots, texture) =~= slots,
    decreases slots.len(),
{
    if slots.len() > 0 {
        lemma_no_backdrop_retextured(slots.drop_last(), texture);
        assert forall|i: int| 0 <= i < slots.len() implies retextured(slots, texture)[i]
            == slots[i] by {
            if i < slots.len() - 1 {
                assert(retextured(slots.drop_last(), texture)[i] == slots.drop_last()[i]);
            }
        }
    }
}

/// Attachment reuses what is there: a scene without a backdrop has exactly
/// one afterwards, and a scene with backdrops has as many as before. So from
/// an empty scene the first load leaves one backdrop, and every later swap
/// leaves that one.
pub proof fn lemma_attach_count(slots: Slots, texture: ImageHandle)
    ensures
        backdrop_count(attached(slots, texture)) == if backdrop_count(slots) == 0 {
            1nat
        } else {
            backdrop_count(slots)
        },
        backdrop_count(attached(attached(slots, texture), texture)) == backdrop_count(
            attached(slots, texture),
        ),
{
    lemma_attach_count_once(slots, texture);
    lemma_attach_count_once(attached(slots, texture), texture);
}

/// One attachment: a scene without a backdrop gains one, any other keeps its
/// number.
proof fn lemma_attach_count_once(slots: Slots, texture: ImageHandle)
    ensures
        backdrop_count(attached(slots, texture)) == if backdrop_count(slots) == 0 {
            1nat
        } else {
            backdrop_count(slots)
        },
{
    if backdrop_count(slots) == 0 {
        let grown = slots.push(Some(backdrop_material(texture)));
        assert(grown.drop_last() =~= slots);
    } else {
        lemma_retextured_prefix_count(slots, texture, slots.len() as int);
        assert(slots.take(slots.len() as int) =~= slots);
        assert(retextured(slots, texture).take(slots.len() as int) =~= retextured(slots, texture));
    }
}

} // verus!
