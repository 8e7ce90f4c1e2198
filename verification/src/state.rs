//! The gallery state: the scanned image paths, the filtered index list, the
//! grid width, the current selection, and the boundary-alert overlay.
//!
//! `State::wf` is the data invariant: the filtered list is a strictly
//! increasing sequence of valid indices into the path list, and the selection,
//! when present, points into the filtered list.

use vstd::prelude::*;

verus! {

use crate::grid;

#[derive(Debug)]
pub struct State {
    /// Paths of every scanned image, in scan order.
    pub image_paths: Vec<String>,
    /// Indices into `image_paths` of the images matching the active query,
    /// in original order.
    pub filtered_image_idxs: Vec<usize>,
    /// Grid width: how many images a full row holds.
    pub max_images_per_row: usize,
    /// Selection: a position in `filtered_image_idxs`, if any image is
    /// selected.
    pub current_image_idx: Option<usize>,
    /// Whether the boundary alert overlay is up.
    pub show_alert: bool,
    /// The message the alert overlay shows (meaningful while it is up).
    pub alert_message: String,
}

impl State {
    /// The data invariant.
    pub open spec fn wf(self) -> bool {
        &&& self.max_images_per_row > 0
        &&& forall|i: int|
            0 <= i < self.filtered_image_idxs@.len() ==> (
            #[trigger] self.filtered_image_idxs@[i]) < self.image_paths@.len()
        &&& forall|i: int, j: int|
            0 <= i < j < self.filtered_image_idxs@.len() ==> self.filtered_image_idxs@[i]
                < self.filtered_image_idxs@[j]
        &&& (self.current_image_idx matches Some(s) ==> (s as nat)
            < self.filtered_image_idxs@.len())
    }

    /// Number of images in the filtered list, as the contracts speak of it.
    pub open spec fn spec_num_images(self) -> int {
        self.filtered_image_idxs@.len() as int
    }

    /// Number of grid rows, as the contracts speak of it.
    pub open spec fn spec_num_rows(self) -> int {
        grid::spec_row_count(self.spec_num_images(), self.max_images_per_row as int)
    }

    /// Number of images currently shown (the filtered list's length).
    pub fn num_images(&self) -> (n: usize)
        ensures
            n == self.spec_num_images(),
    {
        self.filtered_image_idxs.len()
    }

    /// Number of grid rows: the ceiling of `num_images / max_images_per_row`.
    pub fn num_rows(&self) -> (r: usize)
        requires
            self.max_images_per_row > 0,
        ensures
            r == self.spec_num_rows(),
    {
        let n = self.filtered_image_idxs.len();
        let k = self.max_images_per_row;
        if n == 0 {
            0
        } else {
            proof {
                vstd::arithmetic::div_mod::lemma_div_nonincreasing(n - 1, k as int);
            }
            (n - 1) / k + 1
        }
    }

    /// Position in the filtered list of the first image of row `row_idx`.
    pub fn first_image_idx_for_row(&self, row_idx: usize) -> (idx: usize)
        requires
            self.max_images_per_row > 0,
            (row_idx as int) < self.spec_num_rows(),
        ensures
            idx == grid::spec_first_index_of_row(row_idx as int, self.max_images_per_row as int),
            (idx as int) < self.spec_num_images(),
    {
        proof {
            vstd::std_specs::vec::axiom_spec_len(&self.filtered_image_idxs);
            grid::lemma_row_start_in_range(
                self.spec_num_images(),
                self.max_images_per_row as int,
                row_idx as int,
            );
        }
        row_idx * self.max_images_per_row
    }

    /// Number of images in row `row_idx`: a full row, except that the last
    /// row holds only what remains.
    pub fn num_images_for_row(&self, row_idx: usize) -> (m: usize)
        requires
            self.max_images_per_row > 0,
            (row_idx as int) < self.spec_num_rows(),
        ensures
            m == grid::spec_items_in_row(
                self.spec_num_images(),
                self.max_images_per_row as int,
                row_idx as int,
            ),
            1 <= m <= self.max_images_per_row,
    {
        proof {
            grid::lemma_row_start_in_range(
                self.spec_num_images(),
                self.max_images_per_row as int,
                row_idx as int,
            );
        }
        let first_image_idx = self.first_image_idx_for_row(row_idx);
        let num_remaining_images = self.num_images() - first_image_idx;
        if num_remaining_images < self.max_images_per_row {
            num_remaining_images
        } else {
            self.max_images_per_row
        }
    }

    /// The absolute image index shown in cell (`row_idx`, `col_idx`): the
    /// filtered-list entry at that grid position.
    pub fn absolute_index(&self, row_idx: usize, col_idx: usize) -> (abs: usize)
        requires
            self.wf(),
            (row_idx as int) < self.spec_num_rows(),
            (col_idx as int) < grid::spec_items_in_row(
                self.spec_num_images(),
                self.max_images_per_row as int,
                row_idx as int,
            ),
        ensures
            abs == self.filtered_image_idxs@[grid::spec_first_index_of_row(
                row_idx as int,
                self.max_images_per_row as int,
            ) + col_idx],
            (abs as int) < self.image_paths@.len(),
    {
        proof {
            vstd::std_specs::vec::axiom_spec_len(&self.filtered_image_idxs);
            grid::lemma_row_start_in_range(
                self.spec_num_images(),
                self.max_images_per_row as int,
                row_idx as int,
            );
        }
        let first_image_idx = self.first_image_idx_for_row(row_idx);
        self.filtered_image_idxs[first_image_idx + col_idx]
    }
}

impl Default for State {
    /// The startup state: nothing scanned, nothing filtered, no selection,
    /// no alert, and four images per grid row.
    fn default() -> (s: Self)
        ensures
            s.wf(),
            s.image_paths@.len() == 0,
            s.filtered_image_idxs@.len() == 0,
            s.max_images_per_row == 4,
            s.current_image_idx is None,
            !s.show_alert,
            s.alert_message@.len() == 0,
    {
        Self {
            image_paths: Vec::new(),
            filtered_image_idxs: Vec::new(),
            max_images_per_row: 4,
            current_image_idx: None,
            show_alert: false,
            alert_message: String::new(),
        }
    }
}

} // verus!
