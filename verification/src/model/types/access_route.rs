use vstd::prelude::*;
use vstd::string::StringExecFns;

verus! {

/// A hint at where the data behind an asset can be fetched.
#[derive(Debug, PartialEq, Eq)]
pub struct AccessRoute {
    /// The location itself: a URL or anything else a reader can follow.
    pub route: String,
    /// An optional name that tells routes of one owner apart.
    pub name: Option<String>,
}

/// What an [`AccessRoute`] stands for.
pub struct AccessRouteView {
    pub route: Seq<char>,
    pub name: Option<Seq<char>>,
}

/// The view of an optional string.
pub open spec fn optional_text(s: Option<String>) -> Option<Seq<char>> {
    match s {
        Some(t) => Some(t@),
        None => None,
    }
}

impl View for AccessRoute {
    type V = AccessRouteView;

    open spec fn view(&self) -> AccessRouteView {
        AccessRouteView { route: self.route@, name: optional_text(self.name) }
    }
}

impl DeepView for AccessRoute {
    type V = AccessRouteView;

    open spec fn deep_view(&self) -> AccessRouteView {
        self@
    }
}

impl Clone for AccessRoute {
    fn clone(&self) -> (r: Self)
        ensures
            r@ == self@,
    {
        let name = match &self.name {
            Some(n) => Some(n.clone()),
            None => None,
        };
        AccessRoute { route: self.route.clone(), name }
    }
}

impl AccessRoute {
    /// A route with an optional name.
    pub fn new(route: &str, name: Option<&str>) -> (r: Self)
        ensures
            r@.route == route@,
            r@.name == match name {
                Some(n) => Some(n@),
                None => None,
            },
    {
        let name = match name {
            Some(n) => Some(String::from_str(n)),
            None => None,
        };
        AccessRoute { route: String::from_str(route), name }
    }
}

/// The routes that one account has registered for an asset.
#[derive(Debug, PartialEq, Eq)]
pub struct AccessDefinition {
    /// The bech32 address of the account that owns the routes.
    pub owner_address: String,
    /// The routes, in the order in which they were given.
    pub access_routes: Vec<AccessRoute>,
}

/// What an [`AccessDefinition`] stands for.
pub struct AccessDefinitionView {
    pub owner_address: Seq<char>,
    pub access_routes: Seq<AccessRouteView>,
}

impl View for AccessDefinition {
    type V = AccessDefinitionView;

    open spec fn view(&self) -> AccessDefinitionView {
        AccessDefinitionView {
            owner_address: self.owner_address@,
            access_routes: self.access_routes.deep_view(),
        }
    }
}

impl DeepView for AccessDefinition {
    type V = AccessDefinitionView;

    open spec fn deep_view(&self) -> AccessDefinitionView {
        self@
    }
}

impl Clone for AccessDefinition {
    fn clone(&self) -> (r: Self)
        ensures
            r@ == self@,
    {
        let access_routes = self.access_routes.clone();
        assert(access_routes.deep_view() =~= self.access_routes.deep_view());
        AccessDefinition { owner_address: self.owner_address.clone(), access_routes }
    }
}

impl AccessDefinition {
    /// The routes of `owner_address`.
    pub fn new(owner_address: &str, access_routes: Vec<AccessRoute>) -> (r: Self)
        ensures
            r@ == (AccessDefinitionView {
                owner_address: owner_address@,
                access_routes: access_routes.deep_view(),
            }),
    {
        AccessDefinition { owner_address: String::from_str(owner_address), access_routes }
    }
}

/// The owners of a list of access definitions.
pub open spec fn access_owners(definitions: Seq<AccessDefinitionView>) -> Seq<Seq<char>> {
    Seq::new(definitions.len(), |i: int| definitions[i].owner_address)
}

/// The access definitions of all owners but one, in their order.
pub open spec fn without_owner(definitions: Seq<AccessDefinitionView>, owner_address: Seq<char>)
    -> Seq<AccessDefinitionView>
    decreases definitions.len(),
{
    if definitions.len() == 0 {
        Seq::empty()
    } else if definitions.last().owner_address == owner_address {
        without_owner(definitions.drop_last(), owner_address)
    } else {
        without_owner(definitions.drop_last(), owner_address).push(definitions.last())
    }
}

/// The access definitions after an owner's routes have been replaced: what
/// the owner had is gone, and the new routes stand behind the routes of the
/// others.
pub open spec fn with_routes(
    definitions: Seq<AccessDefinitionView>,
    owner_address: Seq<char>,
    access_routes: Seq<AccessRouteView>,
) -> Seq<AccessDefinitionView> {
    without_owner(definitions, owner_address).push(
        AccessDefinitionView { owner_address, access_routes },
    )
}

/// What is left without an owner are definitions of the list, of other
/// owners; if no owner had two definitions, none has now.
pub proof fn lemma_without_owner(definitions: Seq<AccessDefinitionView>, owner_address: Seq<char>)
    ensures
        forall|k: int|
            0 <= k < without_owner(definitions, owner_address).len() ==> {
                let kept = #[trigger] without_owner(definitions, owner_address)[k];
                kept.owner_address != owner_address && exists|i: int|
                    0 <= i < definitions.len() && definitions[i] == kept
            },
        access_owners(definitions).no_duplicates() ==> access_owners(
            without_owner(definitions, owner_address),
        ).no_duplicates(),
    decreases definitions.len(),
{
    if definitions.len() > 0 {
        let head = definitions.drop_last();
        lemma_without_owner(head, owner_address);
        let kept_head = without_owner(head, owner_address);
        let kept = without_owner(definitions, owner_address);
        assert forall|k: int| 0 <= k < kept.len() implies {
            let one = #[trigger] kept[k];
            one.owner_address != owner_address && exists|i: int|
                0 <= i < definitions.len() && definitions[i] == one
        } by {
            if k < kept_head.len() {
                assert(kept[k] == kept_head[k]);
                let i = choose|i: int| 0 <= i < head.len() && head[i] == kept_head[k];
                assert(definitions[i] == kept[k]);
            } else {
                assert(definitions[definitions.len() - 1] == kept[k]);
            }
        }
        if access_owners(definitions).no_duplicates() {
            assert forall|i: int, j: int|
                0 <= i < head.len() && 0 <= j < head.len() && i != j implies access_owners(head)[i]
                != access_owners(head)[j] by {
                assert(access_owners(head)[i] == access_owners(definitions)[i]);
                assert(access_owners(head)[j] == access_owners(definitions)[j]);
            }
            assert forall|a: int, b: int|
                0 <= a < kept.len() && 0 <= b < kept.len() && a != b implies access_owners(kept)[a]
                != access_owners(kept)[b] by {
                if a < kept_head.len() && b < kept_head.len() {
                    assert(access_owners(kept)[a] == access_owners(kept_head)[a]);
                    assert(access_owners(kept)[b] == access_owners(kept_head)[b]);
                } else {
                    let low = if a < b {
                        a
                    } else {
                        b
                    };
                    assert(kept[low] == kept_head[low]);
                    let i = choose|i: int| 0 <= i < head.len() && head[i] == kept_head[low];
                    assert(access_owners(definitions)[i] == kept[low].owner_address);
                    assert(access_owners(definitions)[definitions.len() - 1]
                        == definitions.last().owner_address);
                }
            }
        }
    }
}

/// After an owner's routes have been replaced, no owner has two
/// definitions if none had before.
pub proof fn lemma_with_routes_distinct(
    definitions: Seq<AccessDefinitionView>,
    owner_address: Seq<char>,
    access_routes: Seq<AccessRouteView>,
)
    requires
        access_owners(definitions).no_duplicates(),
    ensures
        access_owners(with_routes(definitions, owner_address, access_routes)).no_duplicates(),
{
    lemma_without_owner(definitions, owner_address);
    let kept = without_owner(definitions, owner_address);
    let after = with_routes(definitions, owner_address, access_routes);
    assert forall|a: int, b: int|
        0 <= a < after.len() && 0 <= b < after.len() && a != b implies access_owners(after)[a]
        != access_owners(after)[b] by {
        if a < kept.len() && b < kept.len() {
            assert(access_owners(after)[a] == access_owners(kept)[a]);
            assert(access_owners(after)[b] == access_owners(kept)[b]);
        } else if a < kept.len() {
            assert(after[a] == kept[a]);
        } else {
            assert(after[b] == kept[b]);
        }
    }
}

/// Replaces the routes of an owner: what the owner had is dropped, and the
/// new routes are put behind the routes of the others.
pub fn replace_access_routes(
    definitions: &Vec<AccessDefinition>,
    owner_address: &str,
    access_routes: Vec<AccessRoute>,
) -> (r: Vec<AccessDefinition>)
    ensures
        r.deep_view() == with_routes(
            definitions.deep_view(),
            owner_address@,
            access_routes.deep_view(),
        ),
{
    let owner = String::from_str(owner_address);
    let ghost all = definitions.deep_view();
    let mut kept: Vec<AccessDefinition> = Vec::new();
    assert(kept.deep_view() =~= without_owner(all.take(0), owner_address@));
    let mut i: usize = 0;
    while i < definitions.len()
        invariant
            i <= definitions@.len(),
            owner@ == owner_address@,
            all == definitions.deep_view(),
            kept.deep_view() == without_owner(all.take(i as int), owner_address@),
        decreases definitions@.len() - i,
    {
        proof {
            assert(all.take(i + 1).drop_last() =~= all.take(i as int));
            assert(all.take(i + 1).last() == definitions@[i as int]@);
        }
        if definitions[i].owner_address != owner {
            let ghost before = kept.deep_view();
            kept.push(definitions[i].clone());
            assert(kept.deep_view() =~= before.push(definitions@[i as int]@));
        }
        i = i + 1;
    }
    proof {
        assert(all.take(i as int) =~= all);
    }
    let ghost before = kept.deep_view();
    let ghost routes = access_routes.deep_view();
    kept.push(AccessDefinition { owner_address: owner, access_routes });
    assert(kept.deep_view() =~= before.push(
        AccessDefinitionView { owner_address: owner_address@, access_routes: routes },
    ));
    kept
}

} // verus!
