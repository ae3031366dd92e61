//! The data model of the upstream space tree: a node's shallow child
//! references, the full node fetched by id, and the wire shape chosen for a
//! resolved node.
use vstd::prelude::*;

verus! {

/// A shallow reference inside a parent's children list: id and display name
/// only.
#[derive(Debug, PartialEq, Eq)]
pub struct ContainedSpace {
    pub id: String,
    pub name: String,
}

/// Mathematical image of a `ContainedSpace`.
pub ghost struct ChildView {
    pub id: Seq<char>,
    pub name: Seq<char>,
}

impl View for ContainedSpace {
    type V = ChildView;

    open spec fn view(&self) -> ChildView {
        ChildView { id: self.id@, name: self.name@ }
    }
}

/// The seating capacity attribute carried only by leaf rooms.
#[derive(Debug, PartialEq, Eq)]
pub struct Capacity {
    pub normal: u64,
}

/// A fully fetched node of the space tree. A node is a room exactly when
/// `contained_spaces` is empty; there is no other discriminator.
#[derive(Debug, PartialEq, Eq)]
pub struct GenericSpace {
    pub name: String,
    pub contained_spaces: Vec<ContainedSpace>,
    pub capacity: Option<Capacity>,
}

/// Mathematical image of a `GenericSpace`.
#[verifier::ext_equal]
pub ghost struct SpaceView {
    pub name: Seq<char>,
    pub contained_spaces: Seq<ChildView>,
    pub capacity: Option<u64>,
}

/// The images of a children list, in order.
pub open spec fn children_view(children: Seq<ContainedSpace>) -> Seq<ChildView> {
    children.map_values(|c: ContainedSpace| c@)
}

impl View for GenericSpace {
    type V = SpaceView;

    open spec fn view(&self) -> SpaceView {
        SpaceView {
            name: self.name@,
            contained_spaces: children_view(self.contained_spaces@),
            capacity: match self.capacity {
                Some(c) => Some(c.normal),
                None => None,
            },
        }
    }
}

impl Clone for ContainedSpace {
    /// A copy of a child reference, equal to what it copies.
    fn clone(&self) -> (r: Self)
        ensures
            r == *self,
    {
        ContainedSpace { id: self.id.clone(), name: self.name.clone() }
    }
}

impl Clone for Capacity {
    /// A copy of a capacity, equal to what it copies.
    fn clone(&self) -> (r: Self)
        ensures
            r == *self,
    {
        Capacity { normal: self.normal }
    }
}

impl Clone for GenericSpace {
    /// A copy of a node, with the same mathematical image.
    fn clone(&self) -> (r: Self)
        ensures
            r@ == self@,
    {
        let contained_spaces = self.contained_spaces.clone();
        proof {
            assert(children_view(contained_spaces@) =~= children_view(self.contained_spaces@));
        }
        let capacity = match &self.capacity {
            Some(c) => Some(c.clone()),
            None => None,
        };
        let r = GenericSpace { name: self.name.clone(), contained_spaces, capacity };
        proof {
            assert(r@ =~= self@);
        }
        r
    }
}

impl SpaceView {
    /// A node is a room exactly when it has no children.
    pub open spec fn is_leaf(self) -> bool {
        self.contained_spaces.len() == 0
    }
}

/// The wire shape chosen for a resolved node: a leaf room keeps its full
/// representation, a container collapses to its children list.
#[derive(Debug, PartialEq, Eq)]
pub enum ShapedResponse {
    Full(GenericSpace),
    Children(Vec<ContainedSpace>),
}

/// Mathematical image of a `ShapedResponse`.
pub ghost enum ShapedView {
    Full(SpaceView),
    Children(Seq<ChildView>),
}

impl View for ShapedResponse {
    type V = ShapedView;

    open spec fn view(&self) -> ShapedView {
        match self {
            ShapedResponse::Full(g) => ShapedView::Full(g@),
            ShapedResponse::Children(cs) => ShapedView::Children(children_view(cs@)),
        }
    }
}

/// The shaping rule on the mathematical image.
pub open spec fn shape_spec(s: SpaceView) -> ShapedView {
    if s.is_leaf() {
        ShapedView::Full(s)
    } else {
        ShapedView::Children(s.contained_spaces)
    }
}

/// Decide the wire shape of a resolved node: a node without children is a
/// room and keeps name and capacity; one with children is a container and
/// collapses to the children list, its own name and capacity dropped.
pub fn shape_response(space: GenericSpace) -> (r: ShapedResponse)
    ensures
        r@ == shape_spec(space@),
{
    if space.contained_spaces.len() == 0 {
        ShapedResponse::Full(space)
    } else {
        ShapedResponse::Children(space.contained_spaces)
    }
}

} // verus!
