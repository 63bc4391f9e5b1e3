//! Intersection records, their aggregation across objects, and the
//! selection of the visible hit.

use vstd::prelude::*;

use crate::fx::Fx;
use crate::sphere::Sphere;
use crate::sphere::SphereV;

verus! {

/// Mathematical image of an intersection record.
pub ghost struct IntersectionV {
    pub time: int,
    pub object: SphereV,
}

/// The capability of being met by a ray: the implementor says which pair
/// of times a given ray produces, and its `intersect` returns exactly
/// those, each record naming the object met.
pub trait Intersect {
    /// The object is in a fit state to be intersected.
    spec fn intersect_wf(&self) -> bool;

    /// The entry and exit times the object gives a ray, if any.
    spec fn intersect_model(&self, r: crate::ray::RayV) -> Option<(int, int)>;

    /// The pair of intersection records for a ray, or nothing on a miss.
    fn intersect(&self, ray: &crate::ray::Ray) -> (r: Option<(Intersection, Intersection)>)
        requires
            self.intersect_wf(),
        ensures
            (r is None) == (self.intersect_model(ray@) is None),
            r matches Some(p) ==> self.intersect_model(ray@) == Some((p.0@.time, p.1@.time)),
    ;
}

/// A parametric time paired with the object met there.
#[derive(Debug)]
pub struct Intersection {
    t: Fx,
    object: Sphere,
}

impl View for Intersection {
    type V = IntersectionV;

    closed spec fn view(&self) -> IntersectionV {
        IntersectionV { time: self.t@, object: self.object@ }
    }
}

impl Clone for Intersection {
    /// The clone carries the same time and object.
    fn clone(&self) -> (r: Self)
        ensures
            r@ == self@,
    {
        Intersection { t: self.t, object: self.object.clone() }
    }
}

/// The image of a list of intersection records.
pub open spec fn iv_seq(s: Seq<Intersection>) -> Seq<IntersectionV> {
    s.map_values(|i: Intersection| i@)
}

/// The flattening of the first `k` optional pairs, in order, pairs kept
/// whole.
pub open spec fn agg_prefix(s: Seq<Option<(Intersection, Intersection)>>, k: nat) -> Seq<
    IntersectionV,
>
    decreases k,
{
    if k == 0 {
        Seq::empty()
    } else {
        agg_prefix(s, (k - 1) as nat) + match s[k - 1] {
            Option::Some(p) => seq![p.0@, p.1@],
            Option::None => Seq::empty(),
        }
    }
}

/// The index the hit search settles on after looking at the first `k`
/// records: the first record carrying the smallest non-negative time.
pub open spec fn hit_index(s: Seq<IntersectionV>, k: nat) -> Option<int>
    decreases k,
{
    if k == 0 {
        Option::None
    } else {
        let prev = hit_index(s, (k - 1) as nat);
        if s[k - 1].time >= 0 {
            match prev {
                Option::None => Option::Some(k - 1),
                Option::Some(pi) => if s[pi].time > s[k - 1].time {
                    Option::Some(k - 1)
                } else {
                    Option::Some(pi)
                },
            }
        } else {
            prev
        }
    }
}

/// The visible hit is the first record carrying the smallest non-negative
/// time; there is none exactly when every time is negative.
pub proof fn lemma_hit_is_nearest(s: Seq<IntersectionV>)
    ensures
        (hit_index(s, s.len()) is None) <==> (forall|k: int|
            0 <= k < s.len() ==> #[trigger] s[k].time < 0),
        hit_index(s, s.len()) matches Some(ix) ==> 0 <= ix < s.len() && s[ix].time >= 0 && (forall|
            k: int,
        |
            0 <= k < s.len() && #[trigger] s[k].time >= 0 ==> s[ix].time <= s[k].time && (k < ix
                ==> s[ix].time < s[k].time)),
{
    lemma_hit_prefix(s, s.len());
}

proof fn lemma_hit_prefix(s: Seq<IntersectionV>, n: nat)
    requires
        n <= s.len(),
    ensures
        (hit_index(s, n) is None) <==> (forall|k: int| 0 <= k < n ==> #[trigger] s[k].time < 0),
        hit_index(s, n) matches Some(ix) ==> 0 <= ix < n && s[ix].time >= 0 && (forall|k: int|
            0 <= k < n && #[trigger] s[k].time >= 0 ==> s[ix].time <= s[k].time && (k < ix
                ==> s[ix].time < s[k].time)),
    decreases n,
{
    if n > 0 {
        lemma_hit_prefix(s, (n - 1) as nat);
    }
}

impl Intersection {
    /// A record from a time and the object met there.
    pub fn new(t: Fx, object: Sphere) -> (i: Self)
        ensures
            i@ == (IntersectionV { time: t@, object: object@ }),
    {
        Intersection { t, object }
    }

    /// The parametric time.
    pub fn get_time(&self) -> (t: Fx)
        ensures
            t@ == self@.time,
    {
        self.t
    }

    /// The object met.
    pub fn get_object(&self) -> (o: &Sphere)
        ensures
            o@ == self@.object,
    {
        &self.object
    }

    /// An owned handle to the object met.
    pub fn get_object_pointer(&self) -> (o: Sphere)
        ensures
            o@ == self@.object,
    {
        self.object.clone()
    }

    /// All present pairs flattened into one list, in order.
    pub fn aggregate_intersections(data: Vec<Option<(Intersection, Intersection)>>) -> (out: Vec<
        Intersection,
    >)
        ensures
            iv_seq(out@) == agg_prefix(data@, data@.len()),
    {
        let mut out: Vec<Intersection> = Vec::new();
        let mut i: usize = 0;
        while i < data.len()
            invariant
                i <= data@.len(),
                iv_seq(out@) == agg_prefix(data@, i as nat),
            decreases data@.len() - i,
        {
            match &data[i] {
                None => {
                },
                Some(pair) => {
                    out.push(pair.0.clone());
                    out.push(pair.1.clone());
                },
            }
            proof {
                assert(iv_seq(out@) =~= agg_prefix(data@, (i + 1) as nat));
            }
            i = i + 1;
        }
        out
    }

    /// The visible hit: the first record carrying the smallest
    /// non-negative time, if any time is non-negative.
    pub fn find_hit(data: &Vec<Intersection>) -> (r: Option<&Intersection>)
        ensures
            (r is None) == (hit_index(iv_seq(data@), data@.len()) is None),
            r matches Some(h) ==> hit_index(iv_seq(data@), data@.len()) matches Some(ix) && *h
                == data@[ix],
    {
        let mut best: Option<usize> = None;
        let mut i: usize = 0;
        while i < data.len()
            invariant
                i <= data@.len(),
                (best is None) == (hit_index(iv_seq(data@), i as nat) is None),
                best matches Some(bi) ==> hit_index(iv_seq(data@), i as nat) == Some(bi as int)
                    && bi < i,
            decreases data@.len() - i,
        {
            if !data[i].t.is_neg() {
                match best {
                    None => {
                        best = Some(i);
                    },
                    Some(bi) => {
                        if data[i].t.lt(data[bi].t) {
                            best = Some(i);
                        }
                    },
                }
            }
            i = i + 1;
        }
        match best {
            None => None,
            Some(bi) => Some(&data[bi]),
        }
    }
}

} // verus!
