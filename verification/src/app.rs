//! The application controller: the gallery state plus the browsing/viewing
//! mode, and the transitions the user interface drives.
//!
//! Each method is the decision half of one user gesture: the caller performs
//! the rendering, focus and dialog work and hands back plain events; the
//! contracts here pin down the whole state after every gesture.

use vstd::prelude::*;

verus! {

use crate::filter;
use crate::state::State;

/// Which page is active: the grid of images, or the full-screen slideshow.
#[derive(Clone, Copy, Debug, PartialEq, Eq, Structural)]
pub enum Mode {
    Browsing,
    Viewing,
}

/// Outcome of a navigation attempt.
#[derive(Clone, Copy, Debug, PartialEq, Eq, Structural)]
pub enum NavigationResult {
    /// The selection moved by one.
    Moved,
    /// The selection was already at the first or last image; an alert was
    /// raised and the selection kept.
    BoundaryHit,
    /// No image is selected, so navigation does nothing.
    NoSelection,
}

/// What the slideshow should display for the current selection.
#[derive(Debug, PartialEq, Eq)]
pub enum ImageSource {
    /// Load the image at this path.
    ImagePath(String),
    /// No selection: show the built-in placeholder.
    Placeholder,
}

/// One user gesture, reduced to a plain event.
#[derive(Debug, PartialEq, Eq)]
pub enum UiAction {
    /// A grid cell bound to this filtered position was clicked.
    ImageClicked(usize),
    /// The slideshow button was pressed.
    SlideshowPressed,
    /// The left navigation button or the left arrow key.
    NavigateLeftPressed,
    /// The right navigation button or the right arrow key.
    NavigateRightPressed,
    /// The escape key while the slideshow has focus.
    EscapePressed,
    /// The search box now holds this query.
    QueryChanged(String),
    /// The alert overlay was dismissed (background click or escape).
    AlertDismissed,
}

#[derive(Debug)]
pub struct App {
    pub state: State,
    pub mode: Mode,
}

/// The scanned list, the filtered list and the grid width are untouched.
pub open spec fn lists_unchanged(pre: App, post: App) -> bool {
    &&& post.state.image_paths == pre.state.image_paths
    &&& post.state.filtered_image_idxs == pre.state.filtered_image_idxs
    &&& post.state.max_images_per_row == pre.state.max_images_per_row
}

/// The alert overlay is untouched.
pub open spec fn alert_unchanged(pre: App, post: App) -> bool {
    &&& post.state.show_alert == pre.state.show_alert
    &&& post.state.alert_message == pre.state.alert_message
}

/// The outcome `navigate_left` reports, as a function of the state before it.
pub open spec fn spec_navigate_left_result(pre: App) -> NavigationResult {
    match pre.state.current_image_idx {
        Option::None => NavigationResult::NoSelection,
        Option::Some(i) => if i > 0 {
            NavigationResult::Moved
        } else {
            NavigationResult::BoundaryHit
        },
    }
}

/// The outcome `navigate_right` reports, as a function of the state before it.
pub open spec fn spec_navigate_right_result(pre: App) -> NavigationResult {
    match pre.state.current_image_idx {
        Option::None => NavigationResult::NoSelection,
        Option::Some(i) => if i + 1 < pre.state.filtered_image_idxs@.len() {
            NavigationResult::Moved
        } else {
            NavigationResult::BoundaryHit
        },
    }
}

/// Everything `navigate_left` does: with no selection nothing changes; off
/// the first image the selection retreats by one; at the first image the
/// selection is kept and the alert is raised with the first-image message.
pub open spec fn spec_navigate_left_post(pre: App, post: App) -> bool {
    &&& lists_unchanged(pre, post)
    &&& post.mode == pre.mode
    &&& match pre.state.current_image_idx {
        Option::None => post == pre,
        Option::Some(i) => if i > 0 {
            &&& post.state.current_image_idx == Some((i - 1) as usize)
            &&& alert_unchanged(pre, post)
        } else {
            &&& post.state.current_image_idx == Some(i)
            &&& post.state.show_alert
            &&& post.state.alert_message@ == "already at first image"@
        },
    }
}

/// Everything `navigate_right` does: the mirror image of
/// `spec_navigate_left_post`, with the last-image message at the far end.
pub open spec fn spec_navigate_right_post(pre: App, post: App) -> bool {
    &&& lists_unchanged(pre, post)
    &&& post.mode == pre.mode
    &&& match pre.state.current_image_idx {
        Option::None => post == pre,
        Option::Some(i) => if i + 1 < pre.state.filtered_image_idxs@.len() {
            &&& post.state.current_image_idx == Some((i + 1) as usize)
            &&& alert_unchanged(pre, post)
        } else {
            &&& post.state.current_image_idx == Some(i)
            &&& post.state.show_alert
            &&& post.state.alert_message@ == "already at last image"@
        },
    }
}

/// Everything a filter recomputation does: the scanned list, grid width,
/// mode and alert are kept; the filtered list becomes exactly the indices of
/// the paths containing the query; the selection resets to the first match,
/// or to none when nothing matches.
pub open spec fn spec_filter_post(pre: App, post: App, query: Seq<char>) -> bool {
    &&& post.state.image_paths == pre.state.image_paths
    &&& post.state.max_images_per_row == pre.state.max_images_per_row
    &&& post.mode == pre.mode
    &&& alert_unchanged(pre, post)
    &&& post.state.filtered_image_idxs@ == filter::spec_filtered(
        pre.state.image_paths.deep_view(),
        query,
    )
    &&& post.state.current_image_idx == (if post.state.filtered_image_idxs@.len() == 0 {
        None::<usize>
    } else {
        Some(0usize)
    })
}

/// Everything one gesture does to the whole application state.
pub open spec fn spec_handle_action_post(pre: App, post: App, action: UiAction) -> bool {
    match action {
        UiAction::ImageClicked(i) => {
            &&& lists_unchanged(pre, post)
            &&& alert_unchanged(pre, post)
            &&& post.state.current_image_idx == Some(i)
            &&& post.mode == Mode::Viewing
        },
        UiAction::SlideshowPressed => {
            &&& post.state == pre.state
            &&& post.mode == Mode::Viewing
        },
        UiAction::NavigateLeftPressed => spec_navigate_left_post(pre, post),
        UiAction::NavigateRightPressed => spec_navigate_right_post(pre, post),
        UiAction::EscapePressed => {
            &&& post.state == pre.state
            &&& post.mode == Mode::Browsing
        },
        UiAction::QueryChanged(q) => spec_filter_post(pre, post, q@),
        UiAction::AlertDismissed => {
            &&& lists_unchanged(pre, post)
            &&& post.mode == pre.mode
            &&& !post.state.show_alert
            &&& post.state.alert_message == pre.state.alert_message
            &&& post.state.current_image_idx == pre.state.current_image_idx
        },
    }
}

impl App {
    pub open spec fn wf(self) -> bool {
        self.state.wf()
    }

    /// Changes the selection to the given filtered position (or to none).
    /// The caller must only pass positions it obtained from the filtered
    /// list it rendered.
    pub fn set_current_image(&mut self, image_idx: Option<usize>)
        requires
            old(self).wf(),
            image_idx matches Some(i) ==> (i as nat)
                < old(self).state.filtered_image_idxs@.len(),
        ensures
            final(self).wf(),
            lists_unchanged(*old(self), *final(self)),
            alert_unchanged(*old(self), *final(self)),
            final(self).mode == old(self).mode,
            final(self).state.current_image_idx == image_idx,
    {
        self.state.current_image_idx = image_idx;
    }

    /// What the slideshow should display: the path of the selected image,
    /// or the placeholder when nothing is selected.
    pub fn current_image_source(&self) -> (src: ImageSource)
        requires
            self.wf(),
        ensures
            match self.state.current_image_idx {
                Option::Some(i) => src matches ImageSource::ImagePath(p) && p@
                    == self.state.image_paths@[self.state.filtered_image_idxs@[i as int] as int]@,
                Option::None => src is Placeholder,
            },
    {
        match self.state.current_image_idx {
            Option::Some(image_idx) => {
                let filtered_image_idx = self.state.filtered_image_idxs[image_idx];
                ImageSource::ImagePath(self.state.image_paths[filtered_image_idx].clone())
            },
            Option::None => ImageSource::Placeholder,
        }
    }

    /// Raises the boundary alert with the given message.
    pub fn show_alert(&mut self, message: &str)
        ensures
            old(self).wf() ==> final(self).wf(),
            lists_unchanged(*old(self), *final(self)),
            final(self).mode == old(self).mode,
            final(self).state.current_image_idx == old(self).state.current_image_idx,
            final(self).state.show_alert,
            final(self).state.alert_message@ == message@,
    {
        self.state.show_alert = true;
        self.state.alert_message = message.to_owned();
    }

    /// Clears the boundary alert; everything underneath stays as it was.
    pub fn close_alert(&mut self)
        ensures
            old(self).wf() ==> final(self).wf(),
            lists_unchanged(*old(self), *final(self)),
            final(self).mode == old(self).mode,
            final(self).state.current_image_idx == old(self).state.current_image_idx,
            !final(self).state.show_alert,
            final(self).state.alert_message == old(self).state.alert_message,
    {
        self.state.show_alert = false;
    }

    /// Retreats the selection by one, or raises the first-image alert when
    /// the selection is already at the first image; does nothing when no
    /// image is selected.
    pub fn navigate_left(&mut self) -> (r: NavigationResult)
        requires
            old(self).wf(),
        ensures
            final(self).wf(),
            r == spec_navigate_left_result(*old(self)),
            spec_navigate_left_post(*old(self), *final(self)),
    {
        match self.state.current_image_idx {
            Option::Some(image_idx) => {
                if image_idx > 0 {
                    self.set_current_image(Some(image_idx - 1));
                    NavigationResult::Moved
                } else {
                    self.show_alert("already at first image");
                    NavigationResult::BoundaryHit
                }
            },
            Option::None => NavigationResult::NoSelection,
        }
    }

    /// Advances the selection by one, or raises the last-image alert when
    /// the selection is already at the last image; does nothing when no
    /// image is selected.
    pub fn navigate_right(&mut self) -> (r: NavigationResult)
        requires
            old(self).wf(),
        ensures
            final(self).wf(),
            r == spec_navigate_right_result(*old(self)),
            spec_navigate_right_post(*old(self), *final(self)),
    {
        match self.state.current_image_idx {
            Option::Some(image_idx) => {
                let num_images = self.state.num_images();
                if image_idx < num_images - 1 {
                    self.set_current_image(Some(image_idx + 1));
                    NavigationResult::Moved
                } else {
                    self.show_alert("already at last image");
                    NavigationResult::BoundaryHit
                }
            },
            Option::None => NavigationResult::NoSelection,
        }
    }

    /// Recomputes the filtered list for the given query: an image stays
    /// exactly when its path contains the query as a literal substring. The
    /// selection resets to the first match, or to none when nothing matches.
    pub fn filter_image_paths(&mut self, query: &str)
        requires
            old(self).state.max_images_per_row > 0,
        ensures
            final(self).wf(),
            spec_filter_post(*old(self), *final(self), query@),
    {
        let ghost paths_view = self.state.image_paths.deep_view();
        self.state.filtered_image_idxs = Vec::new();
        let n = self.state.image_paths.len();
        let mut image_idx: usize = 0;
        while image_idx < n
            invariant
                self.state.image_paths == old(self).state.image_paths,
                self.state.max_images_per_row == old(self).state.max_images_per_row,
                self.state.current_image_idx == old(self).state.current_image_idx,
                self.state.show_alert == old(self).state.show_alert,
                self.state.alert_message == old(self).state.alert_message,
                self.mode == old(self).mode,
                paths_view == self.state.image_paths.deep_view(),
                n == self.state.image_paths@.len(),
                image_idx <= n,
                self.state.filtered_image_idxs@ == filter::spec_filtered_up_to(
                    paths_view,
                    query@,
                    image_idx as int,
                ),
            decreases n - image_idx,
        {
            proof {
                assert(paths_view[image_idx as int] == self.state.image_paths@[
                    image_idx as int]@);
            }
            let matches_query = crate::text::str_contains(
                self.state.image_paths[image_idx].as_str(),
                query,
            );
            if matches_query {
                self.state.filtered_image_idxs.push(image_idx);
            }
            image_idx += 1;
        }
        proof {
            filter::lemma_filtered_shape(paths_view, query@, n as int);
        }
        if self.state.filtered_image_idxs.len() == 0 {
            self.state.current_image_idx = None;
        } else {
            self.state.current_image_idx = Some(0);
        }
    }

    /// Replaces the scanned image list wholesale (the result of a directory
    /// rescan) and reapplies the current query to it.
    pub fn load_image_paths(&mut self, image_paths: Vec<String>, query: &str)
        requires
            old(self).state.max_images_per_row > 0,
        ensures
            final(self).wf(),
            final(self).state.image_paths == image_paths,
            final(self).state.max_images_per_row == old(self).state.max_images_per_row,
            final(self).mode == old(self).mode,
            alert_unchanged(*old(self), *final(self)),
            final(self).state.filtered_image_idxs@ == filter::spec_filtered(
                image_paths.deep_view(),
                query@,
            ),
            final(self).state.current_image_idx == (if final(
                self).state.filtered_image_idxs@.len() == 0 {
                None::<usize>
            } else {
                Some(0usize)
            }),
    {
        self.state.image_paths = image_paths;
        self.filter_image_paths(query);
    }

    /// Applies one user gesture to the whole application state.
    pub fn handle_action(&mut self, action: UiAction)
        requires
            old(self).wf(),
            action matches UiAction::ImageClicked(i) ==> (i as nat)
                < old(self).state.filtered_image_idxs@.len(),
        ensures
            final(self).wf(),
            spec_handle_action_post(*old(self), *final(self), action),
    {
        match action {
            UiAction::ImageClicked(image_idx) => {
                self.set_current_image(Some(image_idx));
                self.mode = Mode::Viewing;
            },
            UiAction::SlideshowPressed => {
                self.mode = Mode::Viewing;
            },
            UiAction::NavigateLeftPressed => {
                let _r = self.navigate_left();
            },
            UiAction::NavigateRightPressed => {
                let _r = self.navigate_right();
            },
            UiAction::EscapePressed => {
                self.mode = Mode::Browsing;
            },
            UiAction::QueryChanged(query) => {
                self.filter_image_paths(query.as_str());
            },
            UiAction::AlertDismissed => {
                self.close_alert();
            },
        }
    }
}

impl Default for App {
    /// The startup state: an empty gallery, browsing, no alert.
    fn default() -> (a: Self)
        ensures
            a.wf(),
            a.mode == Mode::Browsing,
            a.state.image_paths@.len() == 0,
            a.state.filtered_image_idxs@.len() == 0,
            a.state.max_images_per_row == 4,
            a.state.current_image_idx is None,
            !a.state.show_alert,
    {
        Self { state: State::default(), mode: Mode::Browsing }
    }
}

/// Filtering is idempotent: applying the same query a second time leaves the
/// filtered list exactly as the first application left it, and both
/// applications reset the selection to the first match (or to none when
/// nothing matches).
pub proof fn lemma_filter_idempotent(s0: App, s1: App, s2: App, query: Seq<char>)
    requires
        spec_filter_post(s0, s1, query),
        spec_filter_post(s1, s2, query),
    ensures
        s2.state.filtered_image_idxs@ == s1.state.filtered_image_idxs@,
        s2.state.current_image_idx == s1.state.current_image_idx,
        s1.state.filtered_image_idxs@.len() > 0 ==> s1.state.current_image_idx == Some(0usize)
            && s2.state.current_image_idx == Some(0usize),
        s1.state.filtered_image_idxs@.len() == 0 ==> s1.state.current_image_idx is None
            && s2.state.current_image_idx is None,
{
}

/// An empty query keeps the whole image list: the filtered list after
/// filtering with it is every index of the scanned list, in order.
pub proof fn lemma_empty_query_shows_all(pre: App, post: App, query: Seq<char>)
    requires
        spec_filter_post(pre, post, query),
        query.len() == 0,
    ensures
        post.state.filtered_image_idxs@ =~= Seq::new(
            pre.state.image_paths@.len(),
            |i: int| i as usize,
        ),
{
    filter::lemma_empty_query_keeps_all(
        pre.state.image_paths.deep_view(),
        query,
        pre.state.image_paths@.len() as int,
    );
}

} // verus!
