//! Playlist navigation: an ordered list of track references together with a
//! current index (the track considered active for playback) and a selected
//! index (the item targeted by the next destructive operation). Every
//! operation keeps both indices in bounds and pointing at the track the
//! operation semantically intended.

use vstd::prelude::*;

verus! {

/// Sequential advance of the current index: from nothing to the first
/// element, from an element to its successor, and past the end to nothing
/// (no wraparound).
pub open spec fn seq_next(cur: Option<usize>, len: nat) -> Option<usize> {
    match cur {
        Some(c) => if c + 1 < len {
            Some((c + 1) as usize)
        } else {
            None
        },
        None => if len > 0 {
            Some(0usize)
        } else {
            None
        },
    }
}

/// Where the current index moves when the element at `index` is removed
/// from a playlist of length `len`: removing the current element advances
/// to the following track (by keeping the same numeric index), or steps
/// back when the tail was removed, or unsets when the list empties;
/// removing an earlier element shifts the index down by one.
pub open spec fn current_after_remove(cur: Option<usize>, index: usize, len: nat) -> Option<
    usize,
> {
    match cur {
        None => None,
        Some(c) => if c == index {
            if len == 1 {
                None
            } else if index + 1 == len {
                Some((index - 1) as usize)
            } else {
                Some(c)
            }
        } else if c > index {
            Some((c - 1) as usize)
        } else {
            Some(c)
        },
    }
}

/// Where the selected index moves when the element at `index` is removed:
/// removing the selected item selects the item that slides into its slot
/// (or the new last item, or nothing when the list empties); otherwise the
/// selection keeps following the same track.
pub open spec fn selected_after_remove(sel: Option<usize>, index: usize, len: nat) -> Option<
    usize,
> {
    match sel {
        None => None,
        Some(s) => if s == index {
            if len == 1 {
                None
            } else if index + 1 == len {
                Some((index - 1) as usize)
            } else {
                Some(index)
            }
        } else if s > index {
            Some((s - 1) as usize)
        } else {
            Some(s)
        },
    }
}

/// How an index pointer follows a swap of the adjacent positions `a` and
/// `b`: a pointer at either swapped position moves with its track.
pub open spec fn index_after_swap(idx: Option<usize>, a: usize, b: usize) -> Option<usize> {
    match idx {
        None => None,
        Some(c) => if c == a {
            Some(b)
        } else if c == b {
            Some(a)
        } else {
            Some(c)
        },
    }
}

/// The playlist navigator. Tracks are opaque references (paths); duplicates
/// are permitted and order is significant.
pub struct PlaylistManager {
    /// The ordered track references.
    pub playlist: Vec<String>,
    /// The index considered active for playback, if any.
    pub current_index: Option<usize>,
    /// The index targeted by the next destructive operation, if any.
    pub selected_index: Option<usize>,
}

impl PlaylistManager {
    /// Both indices, when set, lie inside the playlist.
    pub open spec fn wf(&self) -> bool {
        &&& (self.current_index matches Some(c) ==> c < self.playlist@.len())
        &&& (self.selected_index matches Some(s) ==> s < self.playlist@.len())
    }

    /// An empty playlist with no current and no selected index.
    pub fn new() -> (r: PlaylistManager)
        ensures
            r.wf(),
            r.playlist@ =~= Seq::<String>::empty(),
            r.current_index is None,
            r.selected_index is None,
    {
        PlaylistManager { playlist: Vec::new(), current_index: None, selected_index: None }
    }

    /// Appends a track at the end. Neither index changes: selecting a first
    /// track is the caller's decision.
    pub fn append(&mut self, track: String)
        requires
            old(self).wf(),
        ensures
            final(self).wf(),
            final(self).playlist@ == old(self).playlist@.push(track),
            final(self).current_index == old(self).current_index,
            final(self).selected_index == old(self).selected_index,
    {
        self.playlist.push(track);
    }

    /// Appends a track and, when it is the first item of a previously empty
    /// playlist, makes it current.
    pub fn add_item(&mut self, track: String)
        requires
            old(self).wf(),
        ensures
            final(self).wf(),
            final(self).playlist@ == old(self).playlist@.push(track),
            final(self).current_index == if old(self).playlist@.len() == 0 {
                Some(0usize)
            } else {
                old(self).current_index
            },
            final(self).selected_index == old(self).selected_index,
    {
        self.append(track);
        if self.playlist.len() == 1 {
            self.current_index = Some(0);
        }
    }

    /// Sets the current index after a bounds check; `None` always succeeds.
    pub fn set_current(&mut self, idx: Option<usize>) -> (r: bool)
        requires
            old(self).wf(),
        ensures
            final(self).wf(),
            r == (idx matches Some(i) ==> i < old(self).playlist@.len()),
            r ==> *final(self) == (PlaylistManager { current_index: idx, ..*old(self) }),
            !r ==> *final(self) == *old(self),
    {
        match idx {
            Some(i) => {
                if i < self.playlist.len() {
                    self.current_index = Some(i);
                    true
                } else {
                    false
                }
            },
            None => {
                self.current_index = None;
                true
            },
        }
    }

    /// Sets the selected index after a bounds check; `None` always succeeds.
    pub fn set_selected(&mut self, idx: Option<usize>) -> (r: bool)
        requires
            old(self).wf(),
        ensures
            final(self).wf(),
            r == (idx matches Some(i) ==> i < old(self).playlist@.len()),
            r ==> *final(self) == (PlaylistManager { selected_index: idx, ..*old(self) }),
            !r ==> *final(self) == *old(self),
    {
        match idx {
            Some(i) => {
                if i < self.playlist.len() {
                    self.selected_index = Some(i);
                    true
                } else {
                    false
                }
            },
            None => {
                self.selected_index = None;
                true
            },
        }
    }

    /// The track at the current index, or nothing. The lookup is defensive:
    /// an out-of-range index yields `None` rather than a panic.
    pub fn current_item(&self) -> (r: Option<String>)
        ensures
            r == match self.current_index {
                Some(i) => if i < self.playlist@.len() {
                    Some(self.playlist@[i as int])
                } else {
                    None::<String>
                },
                None => None::<String>,
            },
    {
        match self.current_index {
            Some(i) => {
                if i < self.playlist.len() {
                    Some(self.playlist[i].clone())
                } else {
                    None
                }
            },
            None => None,
        }
    }

    /// Removes the element at `index` (failing on an out-of-range index) and
    /// moves the current and selected indices by the removal rules above.
    pub fn remove_item(&mut self, index: usize) -> (r: bool)
        requires
            old(self).wf(),
        ensures
            final(self).wf(),
            r == (index < old(self).playlist@.len()),
            !r ==> *final(self) == *old(self),
            r ==> final(self).playlist@ == old(self).playlist@.remove(index as int),
            r ==> final(self).current_index == current_after_remove(
                old(self).current_index,
                index,
                old(self).playlist@.len(),
            ),
            r ==> final(self).selected_index == selected_after_remove(
                old(self).selected_index,
                index,
                old(self).playlist@.len(),
            ),
    {
        if index >= self.playlist.len() {
            return false;
        }
        let len = self.playlist.len();
        match self.current_index {
            None => {},
            Some(c) => {
                if c == index {
                    if len == 1 {
                        self.current_index = None;
                    } else if index + 1 == len {
                        self.current_index = Some(index - 1);
                    }
                } else if c > index {
                    self.current_index = Some(c - 1);
                }
            },
        }
        match self.selected_index {
            None => {},
            Some(s) => {
                if s == index {
                    if len == 1 {
                        self.selected_index = None;
                    } else if index + 1 == len {
                        self.selected_index = Some(index - 1);
                    } else {
                        self.selected_index = Some(index);
                    }
                } else if s > index {
                    self.selected_index = Some(s - 1);
                }
            },
        }
        self.playlist.remove(index);
        true
    }

    /// Swaps the element at `index` with its predecessor. Fails at the
    /// boundary (`index == 0`) or out of range, leaving everything
    /// unchanged; on success both index pointers keep following their
    /// tracks.
    pub fn move_up(&mut self, index: usize) -> (r: bool)
        requires
            old(self).wf(),
        ensures
            final(self).wf(),
            r == (0 < index && index < old(self).playlist@.len()),
            !r ==> *final(self) == *old(self),
            r ==> final(self).playlist@ == old(self).playlist@.update(
                index - 1,
                old(self).playlist@[index as int],
            ).update(index as int, old(self).playlist@[index - 1]),
            r ==> final(self).current_index == index_after_swap(
                old(self).current_index,
                index,
                (index - 1) as usize,
            ),
            r ==> final(self).selected_index == index_after_swap(
                old(self).selected_index,
                index,
                (index - 1) as usize,
            ),
    {
        if index == 0 || index >= self.playlist.len() {
            return false;
        }
        let item = self.playlist.remove(index);
        self.playlist.insert(index - 1, item);
        proof {
            assert(self.playlist@ =~= old(self).playlist@.update(
                index - 1,
                old(self).playlist@[index as int],
            ).update(index as int, old(self).playlist@[index - 1]));
        }
        self.current_index = swap_follow(self.current_index, index, index - 1);
        self.selected_index = swap_follow(self.selected_index, index, index - 1);
        true
    }

    /// Swaps the element at `index` with its successor. Fails at the
    /// boundary (`index` is the last index) or out of range, leaving
    /// everything unchanged; on success both index pointers keep following
    /// their tracks.
    pub fn move_down(&mut self, index: usize) -> (r: bool)
        requires
            old(self).wf(),
        ensures
            final(self).wf(),
            r == (index + 1 < old(self).playlist@.len()),
            !r ==> *final(self) == *old(self),
            r ==> final(self).playlist@ == old(self).playlist@.update(
                index as int,
                old(self).playlist@[index + 1],
            ).update(index + 1, old(self).playlist@[index as int]),
            r ==> final(self).current_index == index_after_swap(
                old(self).current_index,
                index,
                (index + 1) as usize,
            ),
            r ==> final(self).selected_index == index_after_swap(
                old(self).selected_index,
                index,
                (index + 1) as usize,
            ),
    {
        if index >= self.playlist.len() || index == self.playlist.len() - 1 {
            return false;
        }
        let item = self.playlist.remove(index);
        self.playlist.insert(index + 1, item);
        proof {
            assert(self.playlist@ =~= old(self).playlist@.update(
                index as int,
                old(self).playlist@[index + 1],
            ).update(index + 1, old(self).playlist@[index as int]));
        }
        self.current_index = swap_follow(self.current_index, index, index + 1);
        self.selected_index = swap_follow(self.selected_index, index, index + 1);
        true
    }

    /// Advances the current index sequentially and returns the newly
    /// selected track, or nothing when the playlist is empty or exhausted.
    pub fn next_item(&mut self) -> (r: Option<String>)
        requires
            old(self).wf(),
        ensures
            final(self).wf(),
            final(self).playlist@ == old(self).playlist@,
            final(self).selected_index == old(self).selected_index,
            final(self).current_index == seq_next(
                old(self).current_index,
                old(self).playlist@.len(),
            ),
            r == match final(self).current_index {
                Some(i) => Some(old(self).playlist@[i as int]),
                None => None::<String>,
            },
    {
        let len = self.playlist.len();
        let next: Option<usize> = match self.current_index {
            Some(c) => {
                if c + 1 < len {
                    Some(c + 1)
                } else {
                    None
                }
            },
            None => {
                if len > 0 {
                    Some(0)
                } else {
                    None
                }
            },
        };
        self.current_index = next;
        match next {
            Some(i) => Some(self.playlist[i].clone()),
            None => None,
        }
    }

    /// Advances the current index in shuffle mode: with more than one track
    /// and a current index set, an index is drawn uniformly at random from
    /// the indices other than the current one; a single track plays itself;
    /// an empty playlist unsets the index.
    pub fn next_item_shuffle(&mut self) -> (r: Option<String>)
        requires
            old(self).wf(),
        ensures
            final(self).wf(),
            final(self).playlist@ == old(self).playlist@,
            final(self).selected_index == old(self).selected_index,
            old(self).playlist@.len() == 0 ==> final(self).current_index is None,
            old(self).playlist@.len() >= 1 && (old(self).playlist@.len() == 1
                || old(self).current_index is None) ==> final(self).current_index == Some(0usize),
            old(self).playlist@.len() > 1 ==> (old(self).current_index matches Some(c) ==> (
            final(self).current_index matches Some(j) && j < old(self).playlist@.len() && j != c)),
            r == match final(self).current_index {
                Some(i) => Some(old(self).playlist@[i as int]),
                None => None::<String>,
            },
    {
        let len = self.playlist.len();
        if len == 0 {
            self.current_index = None;
            return None;
        }
        match self.current_index {
            Some(c) if len > 1 => {
                // A draw from the len - 1 indices other than c: sample below
                // len - 1 and shift the values at or above c up by one.
                let mut draw: usize = random_below(len - 1);
                if draw >= c {
                    draw = draw + 1;
                }
                self.current_index = Some(draw);
                Some(self.playlist[draw].clone())
            },
            _ => {
                self.current_index = Some(0);
                Some(self.playlist[0].clone())
            },
        }
    }
}

/// An index pointer after a swap of positions `a` and `b` (executable
/// counterpart of `index_after_swap`).
fn swap_follow(idx: Option<usize>, a: usize, b: usize) -> (r: Option<usize>)
    ensures
        r == index_after_swap(idx, a, b),
{
    match idx {
        None => None,
        Some(c) => {
            if c == a {
                Some(b)
            } else if c == b {
                Some(a)
            } else {
                Some(c)
            }
        },
    }
}

/// Relies on rand::random_range: a sample drawn from `0..n` lies in that
/// range; the call panics only on an empty range, which `requires` rules
/// out.
#[verifier::external_body]
fn random_below(n: usize) -> (r: usize)
    requires
        1 <= n,
    ensures
        r < n,
{
    rand::random_range(0..n)
}

/// The current index after the k-th sequential advance of a playlist of
/// length `len`, starting from no current index.
pub open spec fn nth_sequential_advance(k: nat, len: nat) -> Option<usize>
    decreases k,
{
    if k == 0 {
        None
    } else {
        seq_next(nth_sequential_advance((k - 1) as nat, len), len)
    }
}

/// Sequential advance visits the playlist in order: starting from no
/// current index, the k-th advance (1 <= k <= len) selects index k - 1, so
/// `len` advances return each element exactly once, in order.
pub proof fn lemma_sequential_advance_in_order(k: nat, len: nat)
    requires
        1 <= k <= len,
        len <= usize::MAX,
    ensures
        nth_sequential_advance(k, len) == Some((k - 1) as usize),
    decreases k,
{
    if k > 1 {
        lemma_sequential_advance_in_order((k - 1) as nat, len);
    } else {
        reveal_with_fuel(nth_sequential_advance, 2);
    }
}

/// After a full sequential traversal the next advance selects nothing: the
/// playlist is exhausted rather than wrapped around.
pub proof fn lemma_sequential_advance_exhausts(len: nat)
    requires
        len <= usize::MAX,
    ensures
        nth_sequential_advance(len + 1, len) is None,
{
    if len > 0 {
        lemma_sequential_advance_in_order(len, len);
    }
}

/// Removing the current element when it is not the last keeps the numeric
/// current index, which after the removal names the element that followed
/// the removed one in the original playlist.
pub proof fn lemma_remove_current_advances(tracks: Seq<String>, cur: usize)
    requires
        cur + 1 < tracks.len(),
    ensures
        current_after_remove(Some(cur), cur, tracks.len()) == Some(cur),
        tracks.remove(cur as int)[cur as int] == tracks[cur as int + 1],
{
}

} // verus!
