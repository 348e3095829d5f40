//! A flat, id-keyed sheet of style records.
//!
//! Adding styles is strict — a duplicate id fails the whole call and leaves
//! the sheet unchanged. Lookup by a list of ids is deliberately lenient —
//! unknown ids are silently skipped — so layout code can request optional
//! decoration styles without existence checks.

use vstd::prelude::*;

use crate::layout_error::LayoutError;
use crate::style::Style;
use crate::style::StyleView;

verus! {

/// Some style in `styles` carries the id `id`.
pub open spec fn sheet_has_id(styles: Seq<StyleView>, id: Seq<char>) -> bool {
    exists|i: int| 0 <= i < styles.len() && styles[i].id == id
}

/// The style record stored under `id` (meaningful only when
/// [`sheet_has_id`] holds and ids are unique).
pub open spec fn sheet_get(styles: Seq<StyleView>, id: Seq<char>) -> StyleView {
    styles[choose|i: int| 0 <= i < styles.len() && styles[i].id == id]
}

/// All ids in `styles` are distinct.
pub open spec fn sheet_ids_unique(styles: Seq<StyleView>) -> bool {
    forall|i: int, j: int|
        0 <= i < j < styles.len() ==> styles[i].id != styles[j].id
}

/// Appending `incoming` to `sheet` keeps every id globally unique: no
/// incoming id is already present and the incoming ids are distinct among
/// themselves.
pub open spec fn add_styles_ok(sheet: Seq<StyleView>, incoming: Seq<StyleView>) -> bool {
    &&& forall|i: int| 0 <= i < incoming.len() ==> !sheet_has_id(sheet, incoming[i].id)
    &&& sheet_ids_unique(incoming)
}

/// The records found for `ids`, in the caller-given order, skipping ids the
/// sheet does not hold.
pub open spec fn spec_find_styles(sheet: Seq<StyleView>, ids: Seq<Seq<char>>) -> Seq<StyleView>
    decreases ids.len(),
{
    if ids.len() == 0 {
        Seq::empty()
    } else {
        let prefix = spec_find_styles(sheet, ids.drop_last());
        if sheet_has_id(sheet, ids.last()) {
            prefix.push(sheet_get(sheet, ids.last()))
        } else {
            prefix
        }
    }
}

/// A set of named style records with globally unique ids.
#[derive(Debug)]
pub struct Stylesheet {
    styles: Vec<Style>,
}

impl View for Stylesheet {
    type V = Seq<StyleView>;

    closed spec fn view(&self) -> Seq<StyleView> {
        self.styles@.map_values(|s: Style| s@)
    }
}

impl Stylesheet {
    /// Every id appears at most once.
    pub open spec fn wf(&self) -> bool {
        sheet_ids_unique(self@)
    }

    /// An empty sheet.
    pub fn new() -> (r: Stylesheet)
        ensures
            r@ == Seq::<StyleView>::empty(),
            r.wf(),
    {
        Stylesheet { styles: Vec::new() }
    }

    /// How many styles the sheet holds.
    pub fn len(&self) -> (r: usize)
        ensures
            r == self@.len(),
    {
        self.styles.len()
    }

    /// The style stored under `id`, if any.
    pub fn find_style(&self, id: &String) -> (r: Option<&Style>)
        requires
            self.wf(),
        ensures
            match r {
                Some(s) => sheet_has_id(self@, id@) && s@ == sheet_get(self@, id@),
                None => !sheet_has_id(self@, id@),
            },
    {
        let n: usize = self.styles.len();
        let mut i: usize = 0;
        while i < n
            invariant
                self.wf(),
                n == self@.len(),
                0 <= i <= n,
                forall|j: int| 0 <= j < i ==> self@[j].id != id@,
            decreases n - i,
        {
            if self.styles[i].id == *id {
                proof {
                    assert(self@[i as int].id == id@);
                    let j = choose|j: int| 0 <= j < self@.len() && self@[j].id == id@;
                    if j < i as int {
                        assert(self@[j].id != self@[i as int].id);
                    } else if (i as int) < j {
                        assert(self@[i as int].id != self@[j].id);
                    }
                }
                return Some(&self.styles[i]);
            }
            i = i + 1;
        }
        None
    }

    /// Whether the sheet holds a style under `id`.
    pub fn contains_id(&self, id: &String) -> (r: bool)
        requires
            self.wf(),
        ensures
            r == sheet_has_id(self@, id@),
    {
        self.find_style(id).is_some()
    }

    /// Adds every style of `incoming` to the sheet. Fails with
    /// [`LayoutError::DuplicateStyleId`], leaving the sheet unchanged, if
    /// any incoming id duplicates an existing id or another incoming id.
    pub fn add_styles(&mut self, incoming: Vec<Style>) -> (r: Result<(), LayoutError>)
        requires
            old(self).wf(),
        ensures
            final(self).wf(),
            r is Ok <==> add_styles_ok(old(self)@, incoming@.map_values(|s: Style| s@)),
            r is Ok ==> final(self)@ == old(self)@ + incoming@.map_values(|s: Style| s@),
            r is Err ==> final(self)@ == old(self)@ && r == Err::<(), LayoutError>(
                LayoutError::DuplicateStyleId,
            ),
    {
        let ghost inc: Seq<StyleView> = incoming@.map_values(|s: Style| s@);
        let n: usize = incoming.len();
        let mut i: usize = 0;
        while i < n
            invariant
                self.wf(),
                *self == *old(self),
                n == incoming.len(),
                inc == incoming@.map_values(|s: Style| s@),
                0 <= i <= n,
                forall|k: int| 0 <= k < i ==> !sheet_has_id(old(self)@, inc[k].id),
                forall|k: int, l: int| 0 <= k < l < i ==> inc[k].id != inc[l].id,
            decreases n - i,
        {
            if self.find_style(&incoming[i].id).is_some() {
                proof {
                    assert(inc[i as int] == incoming@[i as int]@);
                    assert(sheet_has_id(old(self)@, inc[i as int].id));
                }
                return Err(LayoutError::DuplicateStyleId);
            }
            let mut j: usize = 0;
            while j < i
                invariant
                    self.wf(),
                    *self == *old(self),
                    n == incoming.len(),
                    inc == incoming@.map_values(|s: Style| s@),
                    0 <= j <= i < n,
                    forall|l: int| 0 <= l < j ==> inc[l].id != inc[i as int].id,
                decreases i - j,
            {
                if incoming[j].id == incoming[i].id {
                    proof {
                        assert(inc[j as int] == incoming@[j as int]@);
                        assert(inc[i as int] == incoming@[i as int]@);
                        assert(!sheet_ids_unique(inc));
                    }
                    return Err(LayoutError::DuplicateStyleId);
                }
                j = j + 1;
            }
            i = i + 1;
        }
        let mut incoming = incoming;
        self.styles.append(&mut incoming);
        proof {
            assert(self@ =~= old(self)@ + inc);
            assert forall|a: int, b: int|
                0 <= a < b < self@.len() implies self@[a].id != self@[b].id by {
                let old_len = old(self)@.len() as int;
                if b < old_len {
                } else if a < old_len {
                    assert(!sheet_has_id(old(self)@, inc[b - old_len].id));
                } else {
                }
            }
        }
        Ok(())
    }

    /// Returns, in the caller-given order, the styles matching `ids`,
    /// silently skipping ids the sheet does not hold.
    pub fn find_styles_by_ids(&self, ids: &Vec<String>) -> (r: Vec<Style>)
        requires
            self.wf(),
        ensures
            r@.map_values(|s: Style| s@) == spec_find_styles(self@, ids.deep_view()),
    {
        let ghost idv: Seq<Seq<char>> = ids.deep_view();
        let mut out: Vec<Style> = Vec::new();
        let n: usize = ids.len();
        let mut i: usize = 0;
        while i < n
            invariant
                self.wf(),
                n == ids.len(),
                idv == ids.deep_view(),
                idv.len() == n,
                forall|k: int| 0 <= k < n ==> idv[k] == ids@[k]@,
                0 <= i <= n,
                out@.map_values(|s: Style| s@) == spec_find_styles(self@, idv.take(i as int)),
            decreases n - i,
        {
            proof {
                assert(idv.take(i + 1).drop_last() =~= idv.take(i as int));
                assert(idv.take(i + 1).last() == idv[i as int]);
            }
            match self.find_style(&ids[i]) {
                Some(s) => {
                    let c = s.clone();
                    out.push(c);
                    proof {
                        assert(out@.map_values(|s: Style| s@) =~= spec_find_styles(
                            self@,
                            idv.take(i + 1),
                        ));
                    }
                },
                None => {
                    proof {
                        assert(out@.map_values(|s: Style| s@) =~= spec_find_styles(
                            self@,
                            idv.take(i + 1),
                        ));
                    }
                },
            }
            i = i + 1;
        }
        proof {
            assert(idv.take(n as int) =~= idv);
        }
        out
    }
}

} // verus!
