//! Structural paths: root-anchored sequences of field and index segments that
//! say where in a body, a header set or a query a rule applies.
use crate::dict::Key;
use vstd::prelude::*;

verus! {

/// One segment of a structural path.
#[derive(Debug)]
pub enum PathToken {
    /// The anchor `$`.
    Root,
    /// A named member.
    Field(String),
    /// A position in an array.
    Index(usize),
    /// Any member.
    Star,
    /// Any position in an array.
    StarIndex,
}

/// The model of a [`PathToken`].
pub ghost enum PathSegment {
    Root,
    Field(Seq<char>),
    Index(nat),
    Star,
    StarIndex,
}

impl View for PathToken {
    type V = PathSegment;

    open spec fn view(&self) -> PathSegment {
        match self {
            PathToken::Root => PathSegment::Root,
            PathToken::Field(name) => PathSegment::Field(name@),
            PathToken::Index(i) => PathSegment::Index(*i as nat),
            PathToken::Star => PathSegment::Star,
            PathToken::StarIndex => PathSegment::StarIndex,
        }
    }
}

impl DeepView for PathToken {
    type V = PathSegment;

    open spec fn deep_view(&self) -> PathSegment {
        self@
    }
}

impl Clone for PathToken {
    fn clone(&self) -> (r: Self)
        ensures
            r@ == self@,
    {
        match self {
            PathToken::Root => PathToken::Root,
            PathToken::Field(name) => PathToken::Field(name.clone()),
            PathToken::Index(i) => PathToken::Index(*i),
            PathToken::Star => PathToken::Star,
            PathToken::StarIndex => PathToken::StarIndex,
        }
    }
}

impl PathToken {
    /// Whether two segments denote the same step.
    pub fn same(&self, other: &PathToken) -> (r: bool)
        ensures
            r == (self@ == other@),
    {
        match (self, other) {
            (PathToken::Root, PathToken::Root) => true,
            (PathToken::Field(a), PathToken::Field(b)) => *a == *b,
            (PathToken::Index(a), PathToken::Index(b)) => *a == *b,
            (PathToken::Star, PathToken::Star) => true,
            (PathToken::StarIndex, PathToken::StarIndex) => true,
            _ => false,
        }
    }
}

/// The segment that a member name stands for: `*` is the wildcard, anything
/// else the member of that name.
pub open spec fn member_segment(name: Seq<char>) -> PathSegment {
    if name == seq!['*'] {
        PathSegment::Star
    } else {
        PathSegment::Field(name)
    }
}

/// A structural path.
#[derive(Debug)]
pub struct DocPath {
    pub tokens: Vec<PathToken>,
}

impl View for DocPath {
    type V = Seq<PathSegment>;

    open spec fn view(&self) -> Seq<PathSegment> {
        self.tokens.deep_view()
    }
}

impl DeepView for DocPath {
    type V = Seq<PathSegment>;

    open spec fn deep_view(&self) -> Seq<PathSegment> {
        self@
    }
}

impl Clone for DocPath {
    fn clone(&self) -> (r: Self)
        ensures
            r@ == self@,
    {
        let mut tokens: Vec<PathToken> = Vec::new();
        let mut i: usize = 0;
        while i < self.tokens.len()
            invariant
                i <= self.tokens@.len(),
                tokens@.len() == i,
                forall|k: int| 0 <= k < i ==> tokens@[k]@ == self.tokens@[k]@,
            decreases self.tokens@.len() - i,
        {
            tokens.push(self.tokens[i].clone());
            i += 1;
        }
        let r = DocPath { tokens };
        assert(r@ =~= self@);
        r
    }
}

impl Key for DocPath {
    fn same(&self, other: &Self) -> (r: bool) {
        if self.tokens.len() != other.tokens.len() {
            assert(self@.len() != other@.len());
            return false;
        }
        let mut i: usize = 0;
        while i < self.tokens.len()
            invariant
                i <= self.tokens@.len(),
                self.tokens@.len() == other.tokens@.len(),
                forall|k: int| 0 <= k < i ==> self.tokens@[k]@ == other.tokens@[k]@,
            decreases self.tokens@.len() - i,
        {
            if !self.tokens[i].same(&other.tokens[i]) {
                assert(self@[i as int] != other@[i as int]);
                return false;
            }
            i += 1;
        }
        assert(self@ =~= other@);
        true
    }
}

impl DocPath {
    /// The path with no segments at all.
    pub fn empty() -> (p: DocPath)
        ensures
            p@ == Seq::<PathSegment>::empty(),
    {
        let p = DocPath { tokens: Vec::new() };
        assert(p@ =~= Seq::<PathSegment>::empty());
        p
    }

    /// The path that holds only the anchor.
    pub fn root() -> (p: DocPath)
        ensures
            p@ == seq![PathSegment::Root],
    {
        let mut tokens: Vec<PathToken> = Vec::new();
        tokens.push(PathToken::Root);
        let p = DocPath { tokens };
        assert(p@ =~= seq![PathSegment::Root]);
        p
    }

    /// The number of segments.
    pub fn len(&self) -> (n: usize)
        ensures
            n == self@.len(),
    {
        self.tokens.len()
    }

    /// Whether the path is exactly the anchor.
    pub fn is_root(&self) -> (r: bool)
        ensures
            r == (self@ == seq![PathSegment::Root]),
    {
        let r = self.tokens.len() == 1 && self.tokens[0].same(&PathToken::Root);
        proof {
            if r {
                assert(self@ =~= seq![PathSegment::Root]);
            } else if self@.len() == 1 {
                assert(self@[0] != seq![PathSegment::Root][0]);
            }
        }
        r
    }

    fn push_token(&mut self, token: PathToken)
        ensures
            final(self)@ == old(self)@.push(token@),
    {
        self.tokens.push(token);
        assert(self@ =~= old(self)@.push(token@));
    }

    /// Appends a named member.
    pub fn push_field(&mut self, name: &str)
        ensures
            final(self)@ == old(self)@.push(PathSegment::Field(name@)),
    {
        self.push_token(PathToken::Field(name.to_owned()));
    }

    /// Appends an array position.
    pub fn push_index(&mut self, index: usize)
        ensures
            final(self)@ == old(self)@.push(PathSegment::Index(index as nat)),
    {
        self.push_token(PathToken::Index(index));
    }

    /// Appends the wildcard for members.
    pub fn push_star(&mut self)
        ensures
            final(self)@ == old(self)@.push(PathSegment::Star),
    {
        self.push_token(PathToken::Star);
    }

    /// Appends the wildcard for array positions.
    pub fn push_star_index(&mut self)
        ensures
            final(self)@ == old(self)@.push(PathSegment::StarIndex),
    {
        self.push_token(PathToken::StarIndex);
    }

    /// A copy of the path extended by the member `name`; the name `*` gives
    /// the wildcard.
    pub fn join(&self, name: &str) -> (p: DocPath)
        ensures
            p@ == self@.push(member_segment(name@)),
    {
        let mut p = self.clone();
        let star: String = "*".to_owned();
        proof {
            reveal_strlit("*");
            assert("*"@ =~= seq!['*']);
        }
        if name.to_owned() == star {
            p.push_star();
        } else {
            p.push_field(name);
        }
        p
    }
}

} // verus!
