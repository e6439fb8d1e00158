//! A creature: its seed and what was generated from it.

use crate::color::GreacherColorPalette;
use crate::head::{
    generate_greacher_head_texture, head_data, head_draws_fit, margin_is_transparent,
};
use crate::image::Image;
use crate::names::{after_name, generate_greacher_name, name_draws_fit, name_text};
use crate::palettes::GreacherPalettes;
use crate::stream::{after_draw, drawn, random_u64, seeded_state, SeedStream};
use vstd::prelude::*;

verus! {

/// How a creature moves about.
#[derive(Clone, Copy, Debug, PartialEq, Eq, Structural)]
pub enum GreacherBodyType {
    Legs,
    Wings,
}

/// The parts of a creature that can be generated.
#[derive(Clone, Copy, Debug, PartialEq, Eq, Structural)]
pub enum GreacherParts {
    Head,
    Body,
    Stats,
    Name,
}

/// A set of parts.
#[derive(Clone, Copy, Debug, PartialEq, Eq, Structural)]
pub struct GeneratedParts {
    head: bool,
    body: bool,
    stats: bool,
    name: bool,
}

impl View for GeneratedParts {
    type V = Set<GreacherParts>;

    closed spec fn view(&self) -> Set<GreacherParts> {
        Set::new(
            |part: GreacherParts|
                match part {
                    GreacherParts::Head => self.head,
                    GreacherParts::Body => self.body,
                    GreacherParts::Stats => self.stats,
                    GreacherParts::Name => self.name,
                },
        )
    }
}

impl GeneratedParts {
    /// The empty set.
    pub fn none() -> (parts: GeneratedParts)
        ensures
            parts@ == Set::<GreacherParts>::empty(),
    {
        let parts = GeneratedParts { head: false, body: false, stats: false, name: false };
        assert(parts@ =~= Set::<GreacherParts>::empty());
        parts
    }

    /// Whether a part is in the set.
    pub fn contains(&self, part: GreacherParts) -> (found: bool)
        ensures
            found == self@.contains(part),
    {
        match part {
            GreacherParts::Head => self.head,
            GreacherParts::Body => self.body,
            GreacherParts::Stats => self.stats,
            GreacherParts::Name => self.name,
        }
    }

    /// Adds a part to the set.
    pub fn insert(&mut self, part: GreacherParts)
        ensures
            final(self)@ == old(self)@.insert(part),
    {
        match part {
            GreacherParts::Head => {
                self.head = true;
            },
            GreacherParts::Body => {
                self.body = true;
            },
            GreacherParts::Stats => {
                self.stats = true;
            },
            GreacherParts::Name => {
                self.name = true;
            },
        }
        assert(self@ =~= old(self)@.insert(part));
    }
}

/// The name of the creature with the given seed.
pub open spec fn name_of_seed(seed: u64) -> Seq<char> {
    name_text(seeded_state(seed))
}

/// The entry of a table of `count` palettes that the creature with the given
/// seed is tinted with. It is drawn after the name.
pub open spec fn palette_index_of_seed(seed: u64, count: usize) -> usize {
    drawn(after_name(seeded_state(seed)), 0, count)
}

/// The pixels of the head of the creature with the given seed, for a table
/// of `count` palettes, under a palette. The head is drawn after the name
/// and the palette.
pub open spec fn head_of_seed(seed: u64, count: usize, palette: GreacherColorPalette) -> Seq<u8> {
    head_data(after_draw(after_name(seeded_state(seed)), 0, count), palette)
}

/// Every number drawn for the creature with the given seed, for a table of
/// `count` palettes, lies in its range: those of the name and those of the
/// head.
pub open spec fn draws_of_seed_fit(seed: u64, count: usize) -> bool {
    &&& name_draws_fit(seeded_state(seed))
    &&& head_draws_fit(after_draw(after_name(seeded_state(seed)), 0, count))
}

/// One creature.
#[derive(Debug)]
pub struct Greacher {
    pub seed: u64,
    pub name: String,
    pub generated: GeneratedParts,
    pub body_type: GreacherBodyType,
    pub palette: (usize, GreacherColorPalette),
}

impl Clone for Greacher {
    fn clone(&self) -> (copy: Greacher)
        ensures
            copy.seed == self.seed,
            copy.name@ == self.name@,
            copy.generated == self.generated,
            copy.body_type == self.body_type,
            copy.palette == self.palette,
    {
        Greacher {
            seed: self.seed,
            name: self.name.clone(),
            generated: self.generated,
            body_type: self.body_type,
            palette: (self.palette.0, self.palette.1),
        }
    }
}

impl Greacher {
    /// The creature's name and palette and the pixels of its head are those
    /// of its seed, for the given table of palettes.
    pub open spec fn is_generated_from(
        &self,
        head: Seq<u8>,
        palettes: Seq<GreacherColorPalette>,
    ) -> bool {
        &&& self.name@ == name_of_seed(self.seed)
        &&& self.palette.0 == palette_index_of_seed(self.seed, palettes.len() as usize)
        &&& self.palette.0 < palettes.len()
        &&& self.palette.1 == palettes[self.palette.0 as int]
        &&& head == head_of_seed(self.seed, palettes.len() as usize, self.palette.1)
    }

    /// A creature with a seed from the process-wide random source, generated
    /// from that seed.
    pub fn new(head_texture: &mut Image, palettes: &GreacherPalettes) -> (greacher: Greacher)
        requires
            palettes.is_well_formed(),
        ensures
            greacher.is_generated_from(final(head_texture).data@, palettes.palettes@),
            draws_of_seed_fit(greacher.seed, palettes.palettes@.len() as usize),
            3 <= greacher.name@.len() <= 25,
            greacher.generated@ == set![GreacherParts::Head],
            greacher.body_type == GreacherBodyType::Legs,
            margin_is_transparent(final(head_texture).data@),
            final(head_texture).width == old(head_texture).width,
            final(head_texture).height == old(head_texture).height,
    {
        Self::with_seed(random_u64(), head_texture, palettes)
    }

    /// The creature that belongs to a seed.
    pub fn with_seed(seed: u64, head_texture: &mut Image, palettes: &GreacherPalettes) -> (greacher:
        Greacher)
        requires
            palettes.is_well_formed(),
        ensures
            greacher.seed == seed,
            greacher.is_generated_from(final(head_texture).data@, palettes.palettes@),
            draws_of_seed_fit(greacher.seed, palettes.palettes@.len() as usize),
            3 <= greacher.name@.len() <= 25,
            greacher.generated@ == set![GreacherParts::Head],
            greacher.body_type == GreacherBodyType::Legs,
            margin_is_transparent(final(head_texture).data@),
            final(head_texture).width == old(head_texture).width,
            final(head_texture).height == old(head_texture).height,
    {
        let generated_flags = GeneratedParts::none();

        let mut greacher = Greacher {
            seed,
            name: String::new(),
            generated: generated_flags,
            body_type: GreacherBodyType::Legs,
            palette: (0, GreacherColorPalette::default()),
        };

        greacher.generate(head_texture, palettes);
        assert(greacher.generated@ =~= set![GreacherParts::Head]);

        greacher
    }

    /// Records that a part was generated.
    pub fn mark_as_generated(&mut self, category: GreacherParts)
        ensures
            final(self).generated@ == old(self).generated@.insert(category),
            final(self).seed == old(self).seed,
            final(self).name == old(self).name,
            final(self).body_type == old(self).body_type,
            final(self).palette == old(self).palette,
    {
        self.generated.insert(category);
    }

    /// Whether a part was generated.
    pub fn is_part_generated(&self, category: GreacherParts) -> (found: bool)
        ensures
            found == self.generated@.contains(category),
    {
        self.generated.contains(category)
    }

    /// Generates the creature from its seed: the name, then the palette,
    /// then the head, all drawn from one stream. The head is stored in
    /// `head_texture` and marked as generated.
    pub fn generate(&mut self, head_texture: &mut Image, palettes: &GreacherPalettes)
        requires
            palettes.is_well_formed(),
        ensures
            final(self).seed == old(self).seed,
            final(self).body_type == old(self).body_type,
            final(self).generated@ == old(self).generated@.insert(GreacherParts::Head),
            final(self).is_generated_from(final(head_texture).data@, palettes.palettes@),
            draws_of_seed_fit(final(self).seed, palettes.palettes@.len() as usize),
            3 <= final(self).name@.len() <= 25,
            old(head_texture).width == 10 && old(head_texture).height == 10
                ==> final(head_texture)@.is_well_formed(),
            margin_is_transparent(final(head_texture).data@),
            final(head_texture).width == old(head_texture).width,
            final(head_texture).height == old(head_texture).height,
    {
        let mut rng = SeedStream::new(self.seed);

        self.name = generate_greacher_name(&mut rng);
        let palette_index: usize = rng.range(0, palettes.palettes.len());
        self.palette = (palette_index, palettes.palettes[palette_index]);
        generate_greacher_head_texture(&mut rng, head_texture, &self.palette.1);
        self.mark_as_generated(GreacherParts::Head);
    }

    /// Gives the creature a new seed from the process-wide random source and
    /// generates it again. Nothing counts as generated but what this call
    /// generates.
    pub fn regenerate(&mut self, head_texture: &mut Image, palettes: &GreacherPalettes)
        requires
            palettes.is_well_formed(),
        ensures
            final(self).body_type == old(self).body_type,
            final(self).generated@ == set![GreacherParts::Head],
            final(self).is_generated_from(final(head_texture).data@, palettes.palettes@),
            draws_of_seed_fit(final(self).seed, palettes.palettes@.len() as usize),
            3 <= final(self).name@.len() <= 25,
            margin_is_transparent(final(head_texture).data@),
            final(head_texture).width == old(head_texture).width,
            final(head_texture).height == old(head_texture).height,
    {
        self.reseed(random_u64(), head_texture, palettes);
    }

    /// Gives the creature the given seed and generates it again.
    pub fn reseed(&mut self, seed: u64, head_texture: &mut Image, palettes: &GreacherPalettes)
        requires
            palettes.is_well_formed(),
        ensures
            final(self).seed == seed,
            final(self).body_type == old(self).body_type,
            final(self).generated@ == set![GreacherParts::Head],
            final(self).is_generated_from(final(head_texture).data@, palettes.palettes@),
            draws_of_seed_fit(final(self).seed, palettes.palettes@.len() as usize),
            3 <= final(self).name@.len() <= 25,
            margin_is_transparent(final(head_texture).data@),
            final(head_texture).width == old(head_texture).width,
            final(head_texture).height == old(head_texture).height,
    {
        self.seed = seed;

        self.generated = GeneratedParts::none();

        self.generate(head_texture, palettes);
        assert(self.generated@ =~= set![GreacherParts::Head]);
    }
}

/// Generation is repeatable: two creatures generated from the same seed with
/// the same table of palettes have the same name, the same palette and the
/// same head, byte for byte.
pub proof fn lemma_generation_is_repeatable(
    first: Greacher,
    first_head: Seq<u8>,
    second: Greacher,
    second_head: Seq<u8>,
    palettes: Seq<GreacherColorPalette>,
)
    requires
        first.seed == second.seed,
        first.is_generated_from(first_head, palettes),
        second.is_generated_from(second_head, palettes),
    ensures
        first.name@ == second.name@,
        first.palette == second.palette,
        first_head == second_head,
{
}

} // verus!
