//! The table of palettes: one built-in entry until an atlas image has been
//! read, then one entry for each row of the atlas.

use crate::color::GreacherColorPalette;
use crate::image::{Image, ImageIndexError, ImageView, LoadState};
use vstd::prelude::*;

verus! {

/// Bytes in one row of a palette atlas: four colors of four bytes.
pub const PALETTE_ROW_BYTES: usize = 16;

/// The buffer of an atlas holds sixteen bytes for each of its rows.
pub open spec fn holds_palette_rows(atlas: ImageView) -> bool {
    atlas.height * 16 <= atlas.data.len()
}

/// The palettes of an atlas, one for each row, top to bottom.
pub open spec fn atlas_rows(atlas: ImageView) -> Seq<GreacherColorPalette> {
    Seq::new(atlas.height, |row: int| GreacherColorPalette::at(atlas.data, row * 16))
}

/// Reads the palettes of an atlas, one for each row, top to bottom.
pub fn extract_palettes(atlas: &Image) -> (palettes: Vec<GreacherColorPalette>)
    requires
        holds_palette_rows(atlas@),
    ensures
        palettes@ == atlas_rows(atlas@),
{
    let data = atlas.data.as_slice();
    let total: usize = data.len();
    let mut palettes: Vec<GreacherColorPalette> = Vec::new();

    let mut row_id: usize = 0;
    while row_id < atlas.height
        invariant
            row_id <= atlas.height,
            data@ == atlas.data@,
            data@.len() == total,
            atlas.height * 16 <= data@.len(),
            palettes@.len() == row_id,
            forall|r: int|
                0 <= r < row_id ==> palettes@[r] == GreacherColorPalette::at(atlas.data@, r * 16),
        decreases atlas.height - row_id,
    {
        let first: usize = row_id * PALETTE_ROW_BYTES;
        let row = &data[first..first + PALETTE_ROW_BYTES];
        palettes.push(GreacherColorPalette::from_raw(row));
        row_id += 1;
    }
    assert(palettes@ =~= atlas_rows(atlas@));
    palettes
}

/// The palettes that creatures are tinted with, and the atlas they came
/// from. A table is well formed when it has at least one entry.
pub struct GreacherPalettes {
    pub palette_source: Option<u64>,
    pub palettes: Vec<GreacherColorPalette>,
}

impl Default for GreacherPalettes {
    fn default() -> (table: GreacherPalettes)
        ensures
            table.palette_source.is_none(),
            table.palettes@ == seq![GreacherColorPalette::markers()],
            table.is_well_formed(),
    {
        let mut palettes: Vec<GreacherColorPalette> = Vec::new();
        palettes.push(GreacherColorPalette::default());
        assert(palettes@ =~= seq![GreacherColorPalette::markers()]);
        GreacherPalettes { palette_source: None, palettes }
    }
}

impl GreacherPalettes {
    /// The table has at least one entry.
    pub open spec fn is_well_formed(&self) -> bool {
        self.palettes@.len() >= 1
    }

    /// The entries of a table after the rows of an atlas were read into it:
    /// the rows, or the entries as they were if the atlas has no row.
    pub open spec fn replaced(entries: Seq<GreacherColorPalette>, atlas: ImageView) -> Seq<
        GreacherColorPalette,
    > {
        if atlas.height > 0 {
            atlas_rows(atlas)
        } else {
            entries
        }
    }

    /// Fills the table from its atlas once the atlas is there. While the
    /// atlas is pending or lost the table stays as it is and the obstacle
    /// is returned. A loaded atlas replaces the entries by its rows and is
    /// recorded as the source; one without rows leaves the entries alone.
    pub fn init_color_palettes(
        &mut self,
        source: u64,
        status: LoadState,
        atlas: Option<&Image>,
    ) -> (r: Result<(), ImageIndexError>)
        requires
            status == LoadState::Loaded ==> atlas.is_some() && holds_palette_rows(
                atlas.unwrap()@,
            ),
        ensures
            match status.obstacle() {
                Some(e) => r == Err::<(), ImageIndexError>(e) && *final(self) == *old(self),
                None => r == Ok::<(), ImageIndexError>(()) && final(self).palette_source == Some(
                    source,
                ) && final(self).palettes@ == Self::replaced(
                    old(self).palettes@,
                    atlas.unwrap()@,
                ),
            },
            old(self).is_well_formed() ==> final(self).is_well_formed(),
    {
        match status.check() {
            Err(e) => Err(e),
            Ok(()) => {
                let atlas = atlas.unwrap();
                let palettes = extract_palettes(atlas);
                if palettes.len() > 0 {
                    self.palettes = palettes;
                }
                self.palette_source = Some(source);
                Ok(())
            },
        }
    }
}

} // verus!
