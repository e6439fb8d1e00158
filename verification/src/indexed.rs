//! Indexed sprites: sheets painted with four marker colors, recoloured for
//! each palette of the table and kept for every source that was registered.

use crate::color::{Color, GreacherColorPalette};
use crate::image::{Image, ImageIndexError, ImageView, LoadState};
use crate::palettes::GreacherPalettes;
use vstd::prelude::*;

verus! {

/// The pixels of an indexed sprite under a palette: every whole pixel that
/// is a marker becomes the color of its slot, every other one stays. Bytes
/// after the last whole pixel are dropped.
pub open spec fn remapped(data: Seq<u8>, palette: GreacherColorPalette) -> Seq<u8> {
    Seq::new(
        (data.len() / 4 * 4) as nat,
        |b: int| palette.mapped(Color::at(data, b / 4 * 4)).bytes()[b % 4],
    )
}

/// An indexed sprite under a palette: the same size, the pixels recoloured.
pub open spec fn remapped_image(source: ImageView, palette: GreacherColorPalette) -> ImageView {
    ImageView { width: source.width, height: source.height, data: remapped(source.data, palette) }
}

/// Recolours the pixels of an indexed sprite.
pub fn remap_pixels(source: &[u8], palette: &GreacherColorPalette) -> (data: Vec<u8>)
    ensures
        data@ == remapped(source@, *palette),
{
    let mut data: Vec<u8> = Vec::new();
    let total: usize = source.len();
    let pixels: usize = total / 4;

    let mut n: usize = 0;
    while n < pixels
        invariant
            total == source@.len(),
            pixels == total / 4,
            n <= pixels,
            data@.len() == n * 4,
            forall|b: int|
                0 <= b < n * 4 ==> data@[b] == palette.mapped(Color::at(source@, b / 4 * 4)).bytes()[b
                    % 4],
        decreases pixels - n,
    {
        let color = &source[n * 4..n * 4 + 4];
        let mut bytes: Vec<u8> = palette.map(Color::from_raw(color)).into();
        data.append(&mut bytes);
        n += 1;
    }
    assert(data@ =~= remapped(source@, *palette));
    data
}

/// What each image of a list is.
pub open spec fn views(images: Seq<Image>) -> Seq<ImageView> {
    Seq::new(images.len(), |i: int| images[i]@)
}

/// The variants of a sprite: one recoloured image for each palette, in the
/// order of the palettes.
pub open spec fn derived(source: ImageView, palettes: Seq<GreacherColorPalette>) -> Seq<ImageView> {
    Seq::new(palettes.len(), |i: int| remapped_image(source, palettes[i]))
}

/// The variants of every registered source, in a hash map of `bevy::utils`
/// keyed by the identity of the source.
#[verifier::external_body]
pub struct VariantTable {
    map: bevy::utils::HashMap<u64, Vec<Image>>,
}

/// The entries of a table: for each registered source, what its variants
/// are.
pub uninterp spec fn table_contents(table: VariantTable) -> Map<u64, Seq<ImageView>>;

/// A table without entries.
pub open spec fn no_variants() -> Map<u64, Seq<ImageView>> {
    Map::empty()
}

/// Calls `HashMap::new`, which makes a map without entries.
#[verifier::external_body]
fn empty_table() -> (table: VariantTable)
    ensures
        table_contents(table) == no_variants(),
{
    VariantTable { map: bevy::utils::HashMap::new() }
}

/// Calls `HashMap::contains_key`, which tells whether the map has an entry
/// for the key.
#[verifier::external_body]
fn table_contains(table: &VariantTable, source: u64) -> (found: bool)
    ensures
        found == table_contents(*table).contains_key(source),
{
    table.map.contains_key(&source)
}

/// Calls `HashMap::insert`, which sets the entry for the key and leaves the
/// other entries alone. The value that the key had before is dropped.
#[verifier::external_body]
fn table_insert(table: &mut VariantTable, source: u64, images: Vec<Image>)
    ensures
        table_contents(*final(table)) == table_contents(*old(table)).insert(
            source,
            views(images@),
        ),
{
    table.map.insert(source, images);
}

/// Indexes the map by a key, which hands out the value of its entry. A key
/// without an entry is left out: the call panics on it.
#[verifier::external_body]
fn table_entry(table: &VariantTable, source: u64) -> (images: &Vec<Image>)
    requires
        table_contents(*table).contains_key(source),
    ensures
        views(images@) == table_contents(*table)[source],
{
    &table.map[&source]
}

/// Number of derivations after `n` more, for a counter that stops at the
/// largest number it can hold.
pub open spec fn counted(before: usize, n: int) -> usize {
    if before + n <= usize::MAX {
        (before + n) as usize
    } else {
        usize::MAX
    }
}

/// A sprite to register, as the asset pipeline reports it: its identity,
/// its load status, and the decoded image once there is one.
pub struct PreloadAsset {
    pub source: u64,
    pub status: LoadState,
    pub image: Option<Image>,
}

/// What a server holds after a run over a list of assets.
pub struct PreloadOutcome {
    pub variants: Map<u64, Seq<ImageView>>,
    pub derivations: usize,
    pub obstacle: Option<ImageIndexError>,
}

/// The outcome of registering the assets from index `from` on, in their
/// order, on a server with the given variants and count. The run skips a
/// source that is registered, and ends at the first other asset that is
/// pending or lost, with that obstacle.
pub open spec fn preload_outcome(
    variants: Map<u64, Seq<ImageView>>,
    derivations: usize,
    assets: Seq<PreloadAsset>,
    palettes: Seq<GreacherColorPalette>,
    from: int,
) -> PreloadOutcome
    decreases assets.len() - from,
{
    if from < 0 || from >= assets.len() {
        PreloadOutcome { variants, derivations, obstacle: None }
    } else if variants.contains_key(assets[from].source) {
        preload_outcome(variants, derivations, assets, palettes, from + 1)
    } else {
        match assets[from].status.obstacle() {
            Some(e) => PreloadOutcome { variants, derivations, obstacle: Some(e) },
            None => preload_outcome(
                variants.insert(
                    assets[from].source,
                    derived(assets[from].image.unwrap()@, palettes),
                ),
                counted(derivations, palettes.len() as int),
                assets,
                palettes,
                from + 1,
            ),
        }
    }
}

/// Keeps, for every registered source sprite, its variant for each palette
/// of the table. A source is registered once; its variants are derived then
/// and never again.
pub struct IndexedImageServer {
    preloaded: Vec<String>,
    indexed_handles: VariantTable,
    derivations: usize,
}

impl IndexedImageServer {
    /// The variants of each registered source.
    pub closed spec fn variants(&self) -> Map<u64, Seq<ImageView>> {
        table_contents(self.indexed_handles)
    }

    /// The paths of the sprites to register before play begins.
    pub closed spec fn preloaded_paths(&self) -> Seq<String> {
        self.preloaded@
    }

    /// How many variants were derived so far.
    pub closed spec fn derivation_count(&self) -> usize {
        self.derivations
    }

    /// A server without sources.
    pub fn new() -> (server: IndexedImageServer)
        ensures
            server.variants() == no_variants(),
            server.preloaded_paths() == Seq::<String>::empty(),
            server.derivation_count() == 0,
    {
        IndexedImageServer { preloaded: Vec::new(), indexed_handles: empty_table(), derivations: 0 }
    }

    /// Sets the paths of the sprites to register before play begins.
    pub fn preload(self, paths: Vec<String>) -> (server: IndexedImageServer)
        ensures
            server.preloaded_paths() == paths@,
            server.variants() == self.variants(),
            server.derivation_count() == self.derivation_count(),
    {
        let mut server = self;
        server.preloaded = paths;
        server
    }

    /// The paths of the sprites to register before play begins.
    pub fn preloaded(&self) -> (paths: &Vec<String>)
        ensures
            paths@ == self.preloaded_paths(),
    {
        &self.preloaded
    }

    /// How many variants were derived so far.
    pub fn derivations(&self) -> (n: usize)
        ensures
            n == self.derivation_count(),
    {
        self.derivations
    }

    /// Whether a source is registered.
    pub fn is_indexed(&self, source: u64) -> (found: bool)
        ensures
            found == self.variants().contains_key(source),
    {
        table_contains(&self.indexed_handles, source)
    }

    /// Number of variants of a registered source.
    pub fn variant_count(&self, source: u64) -> (n: usize)
        requires
            self.variants().contains_key(source),
        ensures
            n == self.variants()[source].len(),
    {
        let images = table_entry(&self.indexed_handles, source);
        assert(views(images@).len() == images@.len());
        images.len()
    }

    /// The variant of a registered source for a palette of the table: the
    /// image that was stored when the source was registered.
    pub fn get(&self, source: u64, palette_index: usize) -> (image: &Image)
        requires
            self.variants().contains_key(source),
            palette_index < self.variants()[source].len(),
        ensures
            image@ == self.variants()[source][palette_index as int],
    {
        let images = table_entry(&self.indexed_handles, source);
        assert(views(images@).len() == images@.len());
        assert(views(images@)[palette_index as int] == images@[palette_index as int]@);
        &images[palette_index]
    }

    /// Derives one variant of a sprite, and counts the derivation.
    pub fn generate_indexed_image(&mut self, source: &Image, palette: &GreacherColorPalette) -> (image:
        Image)
        ensures
            image@ == remapped_image(source@, *palette),
            source@.is_well_formed() ==> image@.is_well_formed() && image@.data.len()
                == source@.data.len(),
            final(self).variants() == old(self).variants(),
            final(self).preloaded_paths() == old(self).preloaded_paths(),
            final(self).derivation_count() == counted(old(self).derivation_count(), 1),
    {
        if self.derivations < usize::MAX {
            self.derivations += 1;
        }
        proof {
            if source@.is_well_formed() {
                lemma_remap_keeps_size(source@, *palette);
            }
        }
        Image::new(source.width, source.height, remap_pixels(source.data.as_slice(), palette))
    }

    /// Registers a source: derives its variant for each palette of the table
    /// and stores them. A source that is registered already is left as it
    /// is, whatever its status. One that is pending or lost is not
    /// registered, and the obstacle is returned.
    pub fn generate_indexed_images(
        &mut self,
        source: u64,
        status: LoadState,
        image: Option<&Image>,
        greacher_palettes: &GreacherPalettes,
    ) -> (r: Result<(), ImageIndexError>)
        requires
            !old(self).variants().contains_key(source) && status == LoadState::Loaded
                ==> image.is_some(),
        ensures
            final(self).preloaded_paths() == old(self).preloaded_paths(),
            old(self).variants().submap_of(final(self).variants()),
            old(self).variants().contains_key(source) ==> r.is_ok() && final(self).variants()
                == old(self).variants() && final(self).derivation_count() == old(
                self,
            ).derivation_count(),
            !old(self).variants().contains_key(source) ==> match status.obstacle() {
                Some(e) => r == Err::<(), ImageIndexError>(e) && final(self).variants() == old(
                    self,
                ).variants() && final(self).derivation_count() == old(self).derivation_count(),
                None => r.is_ok() && final(self).variants() == old(self).variants().insert(
                    source,
                    derived(image.unwrap()@, greacher_palettes.palettes@),
                ) && final(self).derivation_count() == counted(
                    old(self).derivation_count(),
                    greacher_palettes.palettes@.len() as int,
                ),
            },
    {
        if table_contains(&self.indexed_handles, source) {
            return Ok(());
        }
        match status.check() {
            Err(e) => {
                return Err(e);
            },
            Ok(()) => {},
        }
        let source_image = image.unwrap();

        let mut indexed_images: Vec<Image> = Vec::new();
        let mut n: usize = 0;
        while n < greacher_palettes.palettes.len()
            invariant
                n <= greacher_palettes.palettes@.len(),
                indexed_images@.len() == n,
                forall|i: int|
                    0 <= i < n ==> (#[trigger] indexed_images@[i])@ == remapped_image(
                        source_image@,
                        greacher_palettes.palettes@[i],
                    ),
                self.variants() == old(self).variants(),
                self.preloaded_paths() == old(self).preloaded_paths(),
                self.derivation_count() == counted(old(self).derivation_count(), n as int),
            decreases greacher_palettes.palettes@.len() - n,
        {
            let variant = self.generate_indexed_image(source_image, &greacher_palettes.palettes[n]);
            indexed_images.push(variant);
            n += 1;
        }
        assert(views(indexed_images@) =~= derived(source_image@, greacher_palettes.palettes@));
        table_insert(&mut self.indexed_handles, source, indexed_images);
        Ok(())
    }

    /// Registers the given assets in their order, up to the first that is
    /// pending or lost. Returns `Ok` when every one of them is registered.
    pub fn do_preload(&mut self, assets: &Vec<PreloadAsset>, greacher_palettes: &GreacherPalettes) -> (r:
        Result<(), ImageIndexError>)
        requires
            forall|i: int|
                0 <= i < assets@.len() && (#[trigger] assets@[i]).status == LoadState::Loaded
                    ==> assets@[i].image.is_some(),
        ensures
            final(self).preloaded_paths() == old(self).preloaded_paths(),
            old(self).variants().submap_of(final(self).variants()),
            final(self).variants() == preload_outcome(
                old(self).variants(),
                old(self).derivation_count(),
                assets@,
                greacher_palettes.palettes@,
                0,
            ).variants,
            final(self).derivation_count() == preload_outcome(
                old(self).variants(),
                old(self).derivation_count(),
                assets@,
                greacher_palettes.palettes@,
                0,
            ).derivations,
            r == match preload_outcome(
                old(self).variants(),
                old(self).derivation_count(),
                assets@,
                greacher_palettes.palettes@,
                0,
            ).obstacle {
                Some(e) => Err::<(), ImageIndexError>(e),
                None => Ok(()),
            },
    {
        let ghost whole = preload_outcome(
            self.variants(),
            self.derivation_count(),
            assets@,
            greacher_palettes.palettes@,
            0,
        );
        let mut n: usize = 0;
        while n < assets.len()
            invariant
                n <= assets@.len(),
                forall|i: int|
                    0 <= i < assets@.len() && (#[trigger] assets@[i]).status == LoadState::Loaded
                        ==> assets@[i].image.is_some(),
                self.preloaded_paths() == old(self).preloaded_paths(),
                old(self).variants().submap_of(self.variants()),
                whole == preload_outcome(
                    old(self).variants(),
                    old(self).derivation_count(),
                    assets@,
                    greacher_palettes.palettes@,
                    0,
                ),
                whole == preload_outcome(
                    self.variants(),
                    self.derivation_count(),
                    assets@,
                    greacher_palettes.palettes@,
                    n as int,
                ),
            decreases assets@.len() - n,
        {
            let asset = &assets[n];
            let result = self.generate_indexed_images(
                asset.source,
                asset.status,
                asset.image.as_ref(),
                greacher_palettes,
            );
            match result {
                Ok(()) => {},
                Err(why) => {
                    return Err(why);
                },
            }
            n += 1;
        }
        Ok(())
    }
}

/// A recoloured sprite has the size of its source: a well-formed image stays
/// well formed, with as many bytes as before.
pub proof fn lemma_remap_keeps_size(source: ImageView, palette: GreacherColorPalette)
    requires
        source.is_well_formed(),
    ensures
        remapped_image(source, palette).is_well_formed(),
        remapped_image(source, palette).width == source.width,
        remapped_image(source, palette).height == source.height,
        remapped_image(source, palette).data.len() == source.data.len(),
{
    let bytes = source.data.len() as int;
    let pixels = (source.width * source.height) as int;
    assert(bytes / 4 * 4 == bytes) by {
        assert(bytes == pixels * 4);
    }
    assert(remapped(source.data, palette).len() == bytes);
}

/// Recolouring with the palette of the markers themselves changes nothing
/// in a buffer of whole pixels.
pub proof fn lemma_marker_palette_is_neutral(data: Seq<u8>)
    requires
        data.len() % 4 == 0,
    ensures
        remapped(data, GreacherColorPalette::markers()) == data,
{
    let palette = GreacherColorPalette::markers();
    assert forall|b: int| 0 <= b < data.len() implies remapped(data, palette)[b] == data[b] by {
        let color = Color::at(data, b / 4 * 4);
        assert(palette.mapped(color) == color);
    }
    assert(remapped(data, palette) =~= data);
}

/// Every pixel of the buffer is one of the four markers.
pub open spec fn only_markers(data: Seq<u8>) -> bool {
    data.len() % 4 == 0 && forall|n: int|
        0 <= n < data.len() / 4 ==> GreacherColorPalette::is_marker(
            #[trigger] Color::at(data, n * 4),
        )
}

/// The palette gives every pixel of the buffer its own color.
pub open spec fn keeps_pixels(palette: GreacherColorPalette, data: Seq<u8>) -> bool {
    forall|n: int|
        0 <= n < data.len() / 4 ==> palette.mapped(#[trigger] Color::at(data, n * 4)) == Color::at(
            data,
            n * 4,
        )
}

/// A sprite made of markers alone, recoloured with a palette and then with
/// the palette of the markers, is the sprite again, for a palette that
/// gives each marker in the sprite its own color. For any other palette the
/// second step cannot undo the first: it leaves every pixel as it finds it.
pub proof fn lemma_palette_swap_round_trip(data: Seq<u8>, palette: GreacherColorPalette)
    requires
        only_markers(data),
        keeps_pixels(palette, data),
    ensures
        remapped(remapped(data, palette), GreacherColorPalette::markers()) == data,
{
    assert forall|b: int| 0 <= b < data.len() implies remapped(data, palette)[b] == data[b] by {
        let n = b / 4;
        assert(n * 4 == b / 4 * 4);
        assert(palette.mapped(Color::at(data, n * 4)) == Color::at(data, n * 4));
    }
    assert(remapped(data, palette) =~= data);
    lemma_marker_palette_is_neutral(data);
}

} // verus!
