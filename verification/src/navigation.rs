//! Pages of the main window and their on-demand loading.

use vstd::prelude::*;
use crate::command::strings_view;
use crate::text::str_is;

verus! {

/// A page of the main window.
pub struct PageConfig {
    /// Identifier used for navigation.
    pub id: &'static str,
    /// Title shown in the sidebar.
    pub title: &'static str,
    /// Icon shown in the sidebar.
    pub icon: &'static str,
    /// Resource holding the page's layout.
    pub ui_resource: &'static str,
}

/// Number of pages.
pub const PAGE_COUNT: usize = 10;

/// Page identifiers, in sidebar order.
pub open spec fn page_ids() -> Seq<Seq<char>> {
    seq![
        "main_page"@,
        "drivers"@,
        "customization"@,
        "gaming_tools"@,
        "gamescope"@,
        "containers_vms"@,
        "multimedia_tools"@,
        "kernel_schedulers"@,
        "servicing_system_tweaks"@,
        "biometrics"@,
    ]
}

/// Page titles, in sidebar order.
pub open spec fn page_titles() -> Seq<Seq<char>> {
    seq![
        "Main Page"@,
        "Drivers"@,
        "Customization"@,
        "Gaming Tools"@,
        "Gamescope"@,
        "Containers/VMs"@,
        "Multimedia Tools"@,
        "Kernel & Schedulers"@,
        "Servicing/System tweaks"@,
        "Biometrics"@,
    ]
}

/// Page icons, in sidebar order.
pub open spec fn page_icons() -> Seq<Seq<char>> {
    seq![
        "house-symbolic"@,
        "gear-symbolic"@,
        "brush-symbolic"@,
        "gamepad-symbolic"@,
        "steam-symbolic"@,
        "box-symbolic"@,
        "play-symbolic"@,
        "hammer-symbolic"@,
        "toolbox-symbolic"@,
        "fingerprint-symbolic"@,
    ]
}

/// Folder of the pages' layouts among the application's resources.
pub const TABS_RESOURCE_DIR: &'static str = "/xyz/xerolinux/xero-toolkit/ui/tabs/";

/// The resource holding a page's layout: `<tabs dir><id>.ui`.
pub open spec fn page_resource(id: Seq<char>) -> Seq<char> {
    TABS_RESOURCE_DIR@ + id + ".ui"@
}

/// The page at `index` (in sidebar order).
pub fn page(index: usize) -> (p: PageConfig)
    requires
        index < PAGE_COUNT,
    ensures
        p.id@ == page_ids()[index as int],
        p.title@ == page_titles()[index as int],
        p.icon@ == page_icons()[index as int],
        p.ui_resource@ == page_resource(p.id@),
{
    proof {
        reveal_strlit("/xyz/xerolinux/xero-toolkit/ui/tabs/");
        reveal_strlit(".ui");
    }
    if index == 0 {
        proof {
            reveal_strlit("main_page");
            reveal_strlit("/xyz/xerolinux/xero-toolkit/ui/tabs/main_page.ui");
        }
        assert("/xyz/xerolinux/xero-toolkit/ui/tabs/main_page.ui"@ =~= page_resource("main_page"@));
        PageConfig { id: "main_page", title: "Main Page", icon: "house-symbolic", ui_resource: "/xyz/xerolinux/xero-toolkit/ui/tabs/main_page.ui" }
    } else if index == 1 {
        proof {
            reveal_strlit("drivers");
            reveal_strlit("/xyz/xerolinux/xero-toolkit/ui/tabs/drivers.ui");
        }
        assert("/xyz/xerolinux/xero-toolkit/ui/tabs/drivers.ui"@ =~= page_resource("drivers"@));
        PageConfig { id: "drivers", title: "Drivers", icon: "gear-symbolic", ui_resource: "/xyz/xerolinux/xero-toolkit/ui/tabs/drivers.ui" }
    } else if index == 2 {
        proof {
            reveal_strlit("customization");
            reveal_strlit("/xyz/xerolinux/xero-toolkit/ui/tabs/customization.ui");
        }
        assert("/xyz/xerolinux/xero-toolkit/ui/tabs/customization.ui"@ =~= page_resource("customization"@));
        PageConfig { id: "customization", title: "Customization", icon: "brush-symbolic", ui_resource: "/xyz/xerolinux/xero-toolkit/ui/tabs/customization.ui" }
    } else if index == 3 {
        proof {
            reveal_strlit("gaming_tools");
            reveal_strlit("/xyz/xerolinux/xero-toolkit/ui/tabs/gaming_tools.ui");
        }
        assert("/xyz/xerolinux/xero-toolkit/ui/tabs/gaming_tools.ui"@ =~= page_resource("gaming_tools"@));
        PageConfig { id: "gaming_tools", title: "Gaming Tools", icon: "gamepad-symbolic", ui_resource: "/xyz/xerolinux/xero-toolkit/ui/tabs/gaming_tools.ui" }
    } else if index == 4 {
        proof {
            reveal_strlit("gamescope");
            reveal_strlit("/xyz/xerolinux/xero-toolkit/ui/tabs/gamescope.ui");
        }
        assert("/xyz/xerolinux/xero-toolkit/ui/tabs/gamescope.ui"@ =~= page_resource("gamescope"@));
        PageConfig { id: "gamescope", title: "Gamescope", icon: "steam-symbolic", ui_resource: "/xyz/xerolinux/xero-toolkit/ui/tabs/gamescope.ui" }
    } else if index == 5 {
        proof {
            reveal_strlit("containers_vms");
            reveal_strlit("/xyz/xerolinux/xero-toolkit/ui/tabs/containers_vms.ui");
        }
        assert("/xyz/xerolinux/xero-toolkit/ui/tabs/containers_vms.ui"@ =~= page_resource("containers_vms"@));
        PageConfig { id: "containers_vms", title: "Containers/VMs", icon: "box-symbolic", ui_resource: "/xyz/xerolinux/xero-toolkit/ui/tabs/containers_vms.ui" }
    } else if index == 6 {
        proof {
            reveal_strlit("multimedia_tools");
            reveal_strlit("/xyz/xerolinux/xero-toolkit/ui/tabs/multimedia_tools.ui");
        }
        assert("/xyz/xerolinux/xero-toolkit/ui/tabs/multimedia_tools.ui"@ =~= page_resource("multimedia_tools"@));
        PageConfig { id: "multimedia_tools", title: "Multimedia Tools", icon: "play-symbolic", ui_resource: "/xyz/xerolinux/xero-toolkit/ui/tabs/multimedia_tools.ui" }
    } else if index == 7 {
        proof {
            reveal_strlit("kernel_schedulers");
            reveal_strlit("/xyz/xerolinux/xero-toolkit/ui/tabs/kernel_schedulers.ui");
        }
        assert("/xyz/xerolinux/xero-toolkit/ui/tabs/kernel_schedulers.ui"@ =~= page_resource("kernel_schedulers"@));
        PageConfig { id: "kernel_schedulers", title: "Kernel & Schedulers", icon: "hammer-symbolic", ui_resource: "/xyz/xerolinux/xero-toolkit/ui/tabs/kernel_schedulers.ui" }
    } else if index == 8 {
        proof {
            reveal_strlit("servicing_system_tweaks");
            reveal_strlit("/xyz/xerolinux/xero-toolkit/ui/tabs/servicing_system_tweaks.ui");
        }
        assert("/xyz/xerolinux/xero-toolkit/ui/tabs/servicing_system_tweaks.ui"@ =~= page_resource("servicing_system_tweaks"@));
        PageConfig { id: "servicing_system_tweaks", title: "Servicing/System tweaks", icon: "toolbox-symbolic", ui_resource: "/xyz/xerolinux/xero-toolkit/ui/tabs/servicing_system_tweaks.ui" }
    } else {
        proof {
            reveal_strlit("biometrics");
            reveal_strlit("/xyz/xerolinux/xero-toolkit/ui/tabs/biometrics.ui");
        }
        assert("/xyz/xerolinux/xero-toolkit/ui/tabs/biometrics.ui"@ =~= page_resource("biometrics"@));
        PageConfig { id: "biometrics", title: "Biometrics", icon: "fingerprint-symbolic", ui_resource: "/xyz/xerolinux/xero-toolkit/ui/tabs/biometrics.ui" }
    }
}

/// The position of the page with identifier `id`, if there is one.
pub fn find_page(id: &str) -> (r: Option<usize>)
    ensures
        match r {
            Some(i) => i < PAGE_COUNT && page_ids()[i as int] == id@ && forall|j: int|
                0 <= j < i ==> page_ids()[j] != id@,
            None => !page_ids().contains(id@),
        },
{
    let mut i: usize = 0;
    while i < PAGE_COUNT
        invariant
            i <= PAGE_COUNT,
            forall|j: int| 0 <= j < i ==> page_ids()[j] != id@,
        decreases PAGE_COUNT - i,
    {
        let p = page(i);
        if str_is(p.id, id) {
            return Some(i);
        }
        i = i + 1;
    }
    assert(!page_ids().contains(id@)) by {
        if page_ids().contains(id@) {
            let k = choose|k: int| 0 <= k < page_ids().len() && page_ids()[k] == id@;
            assert(page_ids()[k] != id@);
        }
    }
    None
}

/// Which pages are loaded and which are being loaded.
pub struct LazyPageLoader {
    loaded: Vec<String>,
    loading: Vec<String>,
}

impl LazyPageLoader {
    /// Pages whose content is in place.
    pub closed spec fn loaded_set(&self) -> Set<Seq<char>> {
        strings_view(self.loaded@).to_set()
    }

    /// Pages being loaded.
    pub closed spec fn loading_set(&self) -> Set<Seq<char>> {
        strings_view(self.loading@).to_set()
    }

    /// No page is both loaded and being loaded.
    pub open spec fn wf(&self) -> bool {
        self.loaded_set().disjoint(self.loading_set())
    }

    /// A loader with nothing loaded.
    pub fn new() -> (l: Self)
        ensures
            l.wf(),
            l.loaded_set() == Set::<Seq<char>>::empty(),
            l.loading_set() == Set::<Seq<char>>::empty(),
    {
        let l = LazyPageLoader { loaded: Vec::new(), loading: Vec::new() };
        assert(l.loaded_set() =~= Set::<Seq<char>>::empty());
        assert(l.loading_set() =~= Set::<Seq<char>>::empty());
        l
    }

    /// Whether the page is loaded.
    pub fn is_loaded(&self, page_id: &str) -> (r: bool)
        ensures
            r == self.loaded_set().contains(page_id@),
    {
        contains_str(&self.loaded, page_id)
    }

    /// Whether the page is being loaded.
    pub fn is_loading(&self, page_id: &str) -> (r: bool)
        ensures
            r == self.loading_set().contains(page_id@),
    {
        contains_str(&self.loading, page_id)
    }

    /// Whether loading the page should start now: it is neither loaded nor
    /// being loaded.
    pub fn needs_loading(&self, page_id: &str) -> (r: bool)
        ensures
            r == (!self.loaded_set().contains(page_id@) && !self.loading_set().contains(page_id@)),
    {
        !self.is_loaded(page_id) && !self.is_loading(page_id)
    }

    /// Marks the page as being loaded.
    pub fn mark_loading(&mut self, page_id: &str)
        requires
            old(self).wf(),
            !old(self).loaded_set().contains(page_id@),
        ensures
            final(self).wf(),
            marked(*old(self), *final(self), page_id@),
    {
        if !contains_str(&self.loading, page_id) {
            let ghost before = strings_view(self.loading@);
            self.loading.push(page_id.to_owned());
            assert(strings_view(self.loading@) =~= before.push(page_id@));
            proof {
                broadcast use vstd::seq_lib::group_seq_properties;
            }
            assert(self.loading_set() =~= old(self).loading_set().insert(page_id@));
        } else {
            assert(self.loading_set() =~= old(self).loading_set().insert(page_id@));
        }
    }

    /// Ends loading the page: it is no longer being loaded, and it is loaded
    /// when the load succeeded.
    pub fn finish_loading(&mut self, page_id: &str, succeeded: bool)
        requires
            old(self).wf(),
        ensures
            final(self).wf(),
            finished(*old(self), *final(self), page_id@, succeeded),
    {
        let kept = remove_str(&self.loading, page_id);
        self.loading = kept;
        if succeeded && !contains_str(&self.loaded, page_id) {
            let ghost before = strings_view(self.loaded@);
            self.loaded.push(page_id.to_owned());
            assert(strings_view(self.loaded@) =~= before.push(page_id@));
            proof {
                broadcast use vstd::seq_lib::group_seq_properties;
            }
            assert(self.loaded_set() =~= old(self).loaded_set().insert(page_id@));
        } else if succeeded {
            assert(self.loaded_set() =~= old(self).loaded_set().insert(page_id@));
        }
    }
}

/// Whether `id` is one of `v`.
fn contains_str(v: &Vec<String>, id: &str) -> (r: bool)
    ensures
        r == strings_view(v@).to_set().contains(id@),
{
    let mut i: usize = 0;
    while i < v.len()
        invariant
            i <= v@.len(),
            forall|k: int| 0 <= k < i ==> #[trigger] v@[k]@ != id@,
        decreases v@.len() - i,
    {
        if str_is(v[i].as_str(), id) {
            assert(strings_view(v@)[i as int] == id@);
            assert(strings_view(v@).contains(id@));
            return true;
        }
        i = i + 1;
    }
    assert(!strings_view(v@).contains(id@)) by {
        if strings_view(v@).contains(id@) {
            let k = choose|k: int| 0 <= k < strings_view(v@).len() && strings_view(v@)[k] == id@;
            assert(v@[k]@ == id@);
        }
    }
    false
}

/// `v` without the entries equal to `id`.
fn remove_str(v: &Vec<String>, id: &str) -> (r: Vec<String>)
    ensures
        strings_view(r@).to_set() == strings_view(v@).to_set().remove(id@),
{
    let mut out: Vec<String> = Vec::new();
    let mut i: usize = 0;
    while i < v.len()
        invariant
            i <= v@.len(),
            forall|x: Seq<char>|
                strings_view(out@).contains(x) <==> (x != id@ && exists|k: int|
                    0 <= k < i && #[trigger] v@[k]@ == x),
        decreases v@.len() - i,
    {
        let ghost before = strings_view(out@);
        if !str_is(v[i].as_str(), id) {
            out.push(v[i].clone());
            assert(strings_view(out@) =~= before.push(v@[i as int]@));
        }
        assert forall|x: Seq<char>|
            strings_view(out@).contains(x) <==> (x != id@ && exists|k: int|
                0 <= k < i + 1 && #[trigger] v@[k]@ == x) by {
            if strings_view(out@).contains(x) {
                let m = choose|m: int| 0 <= m < strings_view(out@).len() && strings_view(out@)[m] == x;
                if m < before.len() {
                    assert(before.contains(x));
                } else {
                    assert(v@[i as int]@ == x);
                }
            }
            if x != id@ && exists|k: int| 0 <= k < i + 1 && #[trigger] v@[k]@ == x {
                let k = choose|k: int| 0 <= k < i + 1 && #[trigger] v@[k]@ == x;
                if k < i {
                    assert(before.contains(x));
                    let m = choose|m: int| 0 <= m < before.len() && before[m] == x;
                    assert(strings_view(out@)[m] == x);
                } else {
                    assert(strings_view(out@)[before.len() as int] == x);
                }
            }
        }
        i = i + 1;
    }
    assert forall|x: Seq<char>| strings_view(out@).to_set().contains(x) == strings_view(v@).to_set().remove(id@).contains(x) by {
        if strings_view(v@).contains(x) {
            let k = choose|k: int| 0 <= k < strings_view(v@).len() && strings_view(v@)[k] == x;
            assert(v@[k]@ == x);
        }
        if x != id@ && exists|k: int| 0 <= k < v@.len() && #[trigger] v@[k]@ == x {
            let k = choose|k: int| 0 <= k < v@.len() && #[trigger] v@[k]@ == x;
            assert(strings_view(v@)[k] == x);
        }
    }
    assert(strings_view(out@).to_set() =~= strings_view(v@).to_set().remove(id@));
    out
}

/// `after` is `before` once `mark_loading(page)` has run.
pub open spec fn marked(before: LazyPageLoader, after: LazyPageLoader, page: Seq<char>) -> bool {
    &&& after.loaded_set() == before.loaded_set()
    &&& after.loading_set() == before.loading_set().insert(page)
}

/// `after` is `before` once `finish_loading(page, succeeded)` has run.
pub open spec fn finished(before: LazyPageLoader, after: LazyPageLoader, page: Seq<char>, succeeded: bool) -> bool {
    &&& after.loading_set() == before.loading_set().remove(page)
    &&& after.loaded_set() == if succeeded {
        before.loaded_set().insert(page)
    } else {
        before.loaded_set()
    }
}

/// A loaded page stays loaded and is never loaded again: after any
/// `mark_loading` (of a page that is not loaded) or `finish_loading` call,
/// it is still loaded and neither being loaded nor in need of loading.
pub proof fn law_loaded_stays_loaded(
    before: LazyPageLoader,
    after: LazyPageLoader,
    page: Seq<char>,
    other: Seq<char>,
    succeeded: bool,
)
    requires
        before.wf(),
        before.loaded_set().contains(page),
        (marked(before, after, other) && !before.loaded_set().contains(other)) || finished(
            before,
            after,
            other,
            succeeded,
        ),
    ensures
        after.wf(),
        after.loaded_set().contains(page),
        !after.loading_set().contains(page),
{
}

/// "Failed to load {title}: {error}".
pub fn load_failure_message(title: &str, error: &str) -> (r: String)
    ensures
        r@ == "Failed to load "@ + title@ + ": "@ + error@,
{
    let mut s = "Failed to load ".to_owned();
    s.append(title);
    s.append(": ");
    s.append(error);
    s
}

} // verus!
