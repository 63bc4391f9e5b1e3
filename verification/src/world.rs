//! The scene: lights and objects, the aggregation of a ray's
//! intersections across every object, the shading context at a hit, and
//! the final color along a ray.

use vstd::prelude::*;

use crate::canvas::color::Color;
use crate::canvas::color::Rgba;
use crate::canvas::color::c_add;
use crate::coord::Coord;
use crate::coord::Vec4;
use crate::coord::v4_add;
use crate::coord::v4_dot;
use crate::coord::v4_is_point;
use crate::coord::v4_is_vec;
use crate::coord::v4_mag;
use crate::coord::v4_neg;
use crate::coord::v4_scale;
use crate::coord::v4_sub;
use crate::fx::Fx;
use crate::fx::SCALE;
use crate::fx::lemma_fx_div_zero;
use crate::fx::lemma_fx_mul_zero;
use crate::light::Light;
use crate::light::LightV;
use crate::light::lighting;
use crate::light::lighting_spec;
use crate::material::Material;
use crate::material::Phong;
use crate::material::default_phong;
use crate::matrix::Matrix;
use crate::matrix::m_apply;
use crate::matrix::m_det;
use crate::matrix::m_inv;
use crate::matrix::m_scaling;
use crate::matrix::m_translation;
use crate::matrix::m_transpose;
use crate::ray::Ray;
use crate::ray::RayV;
use crate::ray::intersection::Intersection;
use crate::ray::intersection::IntersectionV;
use crate::ray::intersection::agg_prefix;
use crate::ray::intersection::hit_index;
use crate::ray::intersection::iv_seq;
use crate::sphere::Sphere;
use crate::sphere::SphereV;
use crate::sphere::sphere_intersect_times;
use crate::sphere::sphere_normal;
use crate::sphere::sphere_wf;

verus! {

/// Mathematical image of a shading context.
pub ghost struct CompsV {
    pub object: SphereV,
    pub point: Vec4,
    pub eyev: Vec4,
    pub normalv: Vec4,
    pub time: int,
    pub inside: bool,
}

/// The shading context at an intersection: the surface point, the vector
/// back towards the eye, and the normal turned inward when the ray starts
/// inside the object.
pub open spec fn prepare_spec(i: IntersectionV, r: RayV) -> CompsV {
    let point = v4_add(r.origin, v4_scale(r.direction, i.time));
    let normal0 = sphere_normal(i.object, point);
    let eyev = v4_neg(r.direction);
    let inside = v4_dot(normal0, eyev) < 0;
    CompsV {
        object: i.object,
        point,
        eyev,
        normalv: if inside {
            v4_neg(normal0)
        } else {
            normal0
        },
        time: i.time,
        inside,
    }
}

/// Precomputed facts about one intersection of a ray and an object.
#[derive(Debug)]
pub struct Comps {
    object: Sphere,
    point: Coord,
    eyev: Coord,
    normalv: Coord,
    time: Fx,
    inside: bool,
}

impl View for Comps {
    type V = CompsV;

    closed spec fn view(&self) -> CompsV {
        CompsV {
            object: self.object@,
            point: self.point@,
            eyev: self.eyev@,
            normalv: self.normalv@,
            time: self.time@,
            inside: self.inside,
        }
    }
}

impl Comps {
    /// A context from its parts.
    pub fn new(
        object: Sphere,
        point: Coord,
        eyev: Coord,
        normalv: Coord,
        time: Fx,
        inside: bool,
    ) -> (c: Self)
        ensures
            c@ == (CompsV {
                object: object@,
                point: point@,
                eyev: eyev@,
                normalv: normalv@,
                time: time@,
                inside,
            }),
    {
        Comps { object, point, eyev, normalv, time, inside }
    }

    /// The object hit.
    pub fn get_object(&self) -> (o: Sphere)
        ensures
            o@ == self@.object,
    {
        self.object.clone()
    }

    /// The surface point.
    pub fn get_point(&self) -> (p: Coord)
        ensures
            p@ == self@.point,
    {
        self.point
    }

    /// The vector back towards the eye.
    pub fn get_eyev(&self) -> (v: Coord)
        ensures
            v@ == self@.eyev,
    {
        self.eyev
    }

    /// The shading normal.
    pub fn get_normalv(&self) -> (v: Coord)
        ensures
            v@ == self@.normalv,
    {
        self.normalv
    }

    /// The parametric time of the hit.
    pub fn get_time(&self) -> (t: Fx)
        ensures
            t@ == self@.time,
    {
        self.time
    }

    /// Whether the ray starts inside the object.
    pub fn get_inside(&self) -> (b: bool)
        ensures
            b == self@.inside,
    {
        self.inside
    }

    /// The shading context for one intersection of a ray.
    pub fn prepare_computations(intersection: Intersection, ray: Ray) -> (c: Self)
        requires
            sphere_wf(intersection@.object),
            v4_is_vec(ray@.direction),
        ensures
            c@ == prepare_spec(intersection@, ray@),
            v4_is_point(ray@.origin) ==> v4_is_point(c@.point),
            v4_is_vec(c@.normalv),
            !v4_is_point(c@.eyev),
    {
        let time: Fx = intersection.get_time();
        let point: Coord = ray.position(time);
        let normal0: Coord = intersection.get_object().normal_at(point);
        let eyev: Coord = ray.get_direction().neg();
        proof {
            lemma_normal_is_vec(intersection@.object, point@);
            lemma_fx_mul_zero(time@);
        }
        let inside: bool = normal0.dot(eyev).is_neg();
        let normalv: Coord = if inside {
            normal0.neg()
        } else {
            normal0
        };
        Comps::new(intersection.get_object_pointer(), point, eyev, normalv, time, inside)
    }
}

/// The surface normal always comes out a direction vector.
proof fn lemma_normal_is_vec(s: SphereV, pos: Vec4)
    ensures
        sphere_normal(s, pos).w == 0,
{
    reveal(crate::sphere::sphere_normal);
    if m_det(s.transformation) != 0 {
        let inv = m_inv(s.transformation);
        let obj_pos = m_apply(inv, pos);
        let obj_normal = v4_sub(obj_pos, Vec4 { x: 0, y: 0, z: 0, w: SCALE as int });
        let world = m_apply(m_transpose(inv), obj_normal);
        let flat = Vec4 { x: world.x, y: world.y, z: world.z, w: 0 };
        if v4_mag(flat) != 0 {
            lemma_fx_div_zero(v4_mag(flat));
        }
    }
}

/// The intersections a ray makes with the first `k` objects, flattened in
/// object order, each pair entry time first.
pub open spec fn world_hits(objs: Seq<SphereV>, r: RayV, k: nat) -> Seq<IntersectionV>
    decreases k,
{
    if k == 0 {
        Seq::empty()
    } else {
        world_hits(objs, r, (k - 1) as nat) + match sphere_intersect_times(objs[k - 1], r) {
            Option::None => Seq::empty(),
            Option::Some(t) => seq![
                IntersectionV { time: t.0, object: objs[k - 1] },
                IntersectionV { time: t.1, object: objs[k - 1] },
            ],
        }
    }
}

/// The color accumulated over the first `k` lights, summed unclamped.
pub open spec fn shade_spec(lights: Seq<LightV>, c: CompsV, k: nat) -> Rgba
    decreases k,
{
    if k == 0 {
        Rgba { r: 0, g: 0, b: 0, a: 0 }
    } else {
        c_add(
            shade_spec(lights, c, (k - 1) as nat),
            lighting_spec(c.object.material, lights[k - 1], c.point, c.eyev, c.normalv),
        )
    }
}

/// Mathematical image of a scene.
pub ghost struct WorldV {
    pub lights: Seq<LightV>,
    pub objects: Seq<SphereV>,
}

/// Every object carries a four-by-four transform and every light sits at
/// a point.
pub open spec fn world_wf(w: WorldV) -> bool {
    &&& forall|i: int| 0 <= i < w.objects.len() ==> sphere_wf(#[trigger] w.objects[i])
    &&& forall|i: int| 0 <= i < w.lights.len() ==> v4_is_point((#[trigger] w.lights[i]).pos)
}

/// The color seen along a ray: black when nothing is hit; otherwise the
/// shading at the nearest non-negative hit.
pub open spec fn color_at_spec(w: WorldV, r: RayV) -> Rgba {
    let hits = world_hits(w.objects, r, w.objects.len());
    match hit_index(hits, hits.len()) {
        Option::None => Rgba { r: 0, g: 0, b: 0, a: 0 },
        Option::Some(ix) => shade_spec(w.lights, prepare_spec(hits[ix], r), w.lights.len()),
    }
}

/// Whether an optional pair of intersection records matches what the
/// sphere's intersection times say for this ray.
pub open spec fn pair_matches(
    o: Option<(Intersection, Intersection)>,
    s: SphereV,
    r: RayV,
) -> bool {
    match sphere_intersect_times(s, r) {
        Option::None => o is None,
        Option::Some(t) => o matches Some(p) && p.0@ == (IntersectionV { time: t.0, object: s })
            && p.1@ == (IntersectionV { time: t.1, object: s }),
    }
}

proof fn lemma_agg_matches(
    data: Seq<Option<(Intersection, Intersection)>>,
    objs: Seq<SphereV>,
    r: RayV,
    k: nat,
)
    requires
        k <= data.len(),
        k <= objs.len(),
        forall|j: int| 0 <= j < k ==> pair_matches(#[trigger] data[j], objs[j], r),
    ensures
        agg_prefix(data, k) == world_hits(objs, r, k),
    decreases k,
{
    if k > 0 {
        lemma_agg_matches(data, objs, r, (k - 1) as nat);
        assert(agg_prefix(data, k) =~= world_hits(objs, r, k));
    }
}

/// Every record among a ray's world hits names one of the scene's
/// objects, so it is well formed in a well formed scene.
#[verifier::rlimit(80)]
proof fn lemma_world_hits_wf(objs: Seq<SphereV>, r: RayV, k: nat)
    requires
        k <= objs.len(),
        forall|i: int| 0 <= i < objs.len() ==> sphere_wf(#[trigger] objs[i]),
    ensures
        forall|i: int|
            0 <= i < world_hits(objs, r, k).len() ==> sphere_wf(
                (#[trigger] world_hits(objs, r, k)[i]).object,
            ),
    decreases k,
{
    if k > 0 {
        lemma_world_hits_wf(objs, r, (k - 1) as nat);
        assert forall|i: int| 0 <= i < world_hits(objs, r, k).len() implies sphere_wf(
            (#[trigger] world_hits(objs, r, k)[i]).object,
        ) by {
            let prev = world_hits(objs, r, (k - 1) as nat);
            if i >= prev.len() {
                assert(world_hits(objs, r, k)[i].object == objs[k - 1]);
            }
        }
    }
}

/// A scene: its lights and its objects.
pub struct World {
    light: Vec<Light>,
    objects: Vec<Sphere>,
}

impl View for World {
    type V = WorldV;

    closed spec fn view(&self) -> WorldV {
        WorldV {
            lights: self.light@.map_values(|l: Light| l@),
            objects: self.objects@.map_values(|s: Sphere| s@),
        }
    }
}

impl World {
    /// An empty scene.
    pub fn new() -> (w: Self)
        ensures
            w@.lights.len() == 0,
            w@.objects.len() == 0,
            world_wf(w@),
    {
        World { light: Vec::new(), objects: Vec::new() }
    }

    /// The stock two-sphere scene: a white light up and to the left, an
    /// outer sphere with a green-tinted material, and an inner sphere at
    /// half scale.
    pub fn default() -> (w: Self)
        ensures
            w@.lights.len() == 1,
            w@.lights[0] == (LightV {
                pos: Vec4 {
                    x: -10 * (SCALE as int),
                    y: 10 * (SCALE as int),
                    z: -10 * (SCALE as int),
                    w: SCALE as int,
                },
                intensity: Rgba { r: SCALE as int, g: SCALE as int, b: SCALE as int, a: 0 },
            }),
            w@.objects.len() == 2,
            w@.objects[0] == (SphereV {
                transformation: m_translation(0, 0, 0),
                material: Phong {
                    ambient: SCALE as int / 10,
                    diffuse: 7 * (SCALE as int) / 10,
                    specular: SCALE as int / 5,
                    shininess: 200 * (SCALE as int),
                    color: Rgba {
                        r: 8 * (SCALE as int) / 10,
                        g: SCALE as int,
                        b: 6 * (SCALE as int) / 10,
                        a: 0,
                    },
                },
            }),
            w@.objects[1] == (SphereV {
                transformation: m_scaling(SCALE as int / 2, SCALE as int / 2, SCALE as int / 2),
                material: default_phong(),
            }),
            world_wf(w@),
    {
        let nil: Fx = Fx::zero();
        let ten: Fx = Fx::from_int(10);
        let l: Light = Light::new(Coord::point(ten.neg(), ten, ten.neg()), Color::white());
        let mut s1: Sphere = Sphere::new(Coord::point(nil, nil, nil));
        let mut s2: Sphere = Sphere::new(Coord::point(nil, nil, nil));
        let half: Fx = Fx::from_units(SCALE / 2);
        s2.set_transformation(Matrix::scaling(half, half, half));
        let mat: Material = Material::new(
            Fx::from_units(SCALE / 10),
            Fx::from_units(7 * (SCALE / 10)),
            Fx::from_units(SCALE / 5),
            Fx::from_int(200),
            Color::new(Fx::from_units(8 * (SCALE / 10)), Fx::one(), Fx::from_units(6 * (SCALE / 10)), nil),
        );
        s1.set_material(mat);
        let mut light: Vec<Light> = Vec::new();
        light.push(l);
        let mut objects: Vec<Sphere> = Vec::new();
        objects.push(s1);
        objects.push(s2);
        World { light, objects }
    }

    /// The lights.
    pub fn get_light(&self) -> (r: &Vec<Light>)
        ensures
            r@.map_values(|l: Light| l@) == self@.lights,
    {
        &self.light
    }

    /// Replace every light with the one given, which must sit at a point.
    pub fn set_light(&mut self, light: Light)
        requires
            v4_is_point(light@.pos),
        ensures
            final(self)@.lights =~= seq![light@],
            final(self)@.objects == old(self)@.objects,
    {
        let mut v: Vec<Light> = Vec::new();
        v.push(light);
        self.light = v;
        proof {
            assert(self@.lights =~= seq![light@]);
        }
    }

    /// Add one light, which must sit at a point.
    pub fn add_light(&mut self, light: Light)
        requires
            v4_is_point(light@.pos),
        ensures
            final(self)@.lights =~= old(self)@.lights.push(light@),
            final(self)@.objects == old(self)@.objects,
    {
        self.light.push(light);
        proof {
            assert(self@.lights =~= old(self)@.lights.push(light@));
        }
    }

    /// Add one object.
    pub fn add_object(&mut self, object: Sphere)
        requires
            sphere_wf(object@),
        ensures
            final(self)@.objects =~= old(self)@.objects.push(object@),
            final(self)@.lights == old(self)@.lights,
    {
        self.objects.push(object);
        proof {
            assert(self@.objects =~= old(self)@.objects.push(object@));
        }
    }

    /// The objects, copied out.
    pub fn get_object(&self) -> (r: Vec<Sphere>)
        ensures
            r@.map_values(|s: Sphere| s@) == self@.objects,
    {
        let mut out: Vec<Sphere> = Vec::new();
        let mut i: usize = 0;
        while i < self.objects.len()
            invariant
                i <= self.objects@.len(),
                out@.len() == i as int,
                forall|j: int| 0 <= j < i as int ==> (#[trigger] out@[j])@ == self.objects@[j]@,
            decreases self.objects@.len() - i,
        {
            out.push(self.objects[i].clone());
            i = i + 1;
        }
        proof {
            assert(out@.map_values(|s: Sphere| s@) =~= self@.objects);
        }
        out
    }

    /// Every intersection the ray makes with the scene, flattened in
    /// object order.
    #[verifier::rlimit(80)]
    pub fn get_intersections(&self, ray: Ray) -> (r: Vec<Intersection>)
        requires
            world_wf(self@),
        ensures
            iv_seq(r@) == world_hits(self@.objects, ray@, self@.objects.len()),
    {
        let mut data: Vec<Option<(Intersection, Intersection)>> = Vec::new();
        let mut i: usize = 0;
        while i < self.objects.len()
            invariant
                i <= self.objects@.len(),
                world_wf(self@),
                data@.len() == i as int,
                forall|j: int|
                    0 <= j < i as int ==> pair_matches(#[trigger] data@[j], self@.objects[j], ray@),
            decreases self.objects@.len() - i,
        {
            proof {
                assert(self@.objects[i as int] == self.objects@[i as int]@);
            }
            data.push(self.objects[i].intersect(&ray));
            i = i + 1;
        }
        proof {
            lemma_agg_matches(data@, self@.objects, ray@, self@.objects.len());
        }
        Intersection::aggregate_intersections(data)
    }

    /// The shading at one context: the Phong contribution of every light,
    /// summed unclamped.
    pub fn shade_hit(&self, comps: Comps) -> (c: Color)
        requires
            world_wf(self@),
            v4_is_point(comps@.point),
            v4_is_vec(comps@.normalv),
            !v4_is_point(comps@.eyev),
        ensures
            c@ == shade_spec(self@.lights, comps@, self@.lights.len()),
    {
        let mut color: Color = Color::black();
        let mut i: usize = 0;
        while i < self.light.len()
            invariant
                i <= self.light@.len(),
                world_wf(self@),
                v4_is_point(comps@.point),
                v4_is_vec(comps@.normalv),
                !v4_is_point(comps@.eyev),
                color@ == shade_spec(self@.lights, comps@, i as nat),
            decreases self.light@.len() - i,
        {
            proof {
                assert(self@.lights[i as int] == self.light@[i as int]@);
            }
            color = color.add(
                lighting(
                    comps.get_object().get_material(),
                    self.light[i],
                    comps.get_point(),
                    comps.get_eyev(),
                    comps.get_normalv(),
                ),
            );
            i = i + 1;
        }
        color
    }

    /// The color seen along a ray: black when the ray hits nothing;
    /// otherwise the shading at the nearest non-negative hit, never a
    /// farther one.
    #[verifier::rlimit(100)]
    #[verifier::spinoff_prover]
    pub fn color_at(&self, ray: Ray) -> (c: Color)
        requires
            world_wf(self@),
            v4_is_point(ray@.origin),
            v4_is_vec(ray@.direction),
        ensures
            c@ == color_at_spec(self@, ray@),
            hit_index(
                world_hits(self@.objects, ray@, self@.objects.len()),
                world_hits(self@.objects, ray@, self@.objects.len()).len(),
            ) is None ==> c@ == (Rgba { r: 0, g: 0, b: 0, a: 0 }),
    {
        let xs: Vec<Intersection> = self.get_intersections(ray);
        let hit: Option<&Intersection> = Intersection::find_hit(&xs);
        match hit {
            None => Color::black(),
            Some(h) => {
                let picked: Intersection = h.clone();
                proof {
                    crate::ray::intersection::lemma_hit_is_nearest(iv_seq(xs@));
                    lemma_world_hits_wf(self@.objects, ray@, self@.objects.len());
                }
                let comps: Comps = Comps::prepare_computations(picked, ray);
                self.shade_hit(comps)
            },
        }
    }
}

} // verus!
