use minirt::utils::fx::Fx;
use minirt::utils::intersection_holder::IntersectionHolder;
use minirt::utils::material::{Material, Pattern};
use minirt::utils::ray::Ray;
use minirt::utils::vec3::Vec3;
use minirt::world::camera::Camera;
use minirt::world::light::Light;
use minirt::world::w::{Intersection, World};

fn fx(v: f64) -> Fx {
    Fx::from_raw((v * 1e6).round() as i64)
}

fn v3(x: f64, y: f64, z: f64) -> Vec3 {
    Vec3::new(fx(x), fx(y), fx(z))
}

#[test]
fn test_intersect() {
    let w = World::default();
    let r = Ray::new(v3(0.0, 0.0, -5.0), v3(0.0, 0.0, 1.0));
    let mut xs: IntersectionHolder<Intersection> = IntersectionHolder::new(4);
    w.intersect(&r, &mut xs);

    assert_eq!(xs.vec().len(), 4);
    assert_eq!(xs.get(0).unwrap().t, fx(4.0));
    assert_eq!(xs.get(1).unwrap().t, fx(4.5));
    assert_eq!(xs.get(2).unwrap().t, fx(5.5));
    assert_eq!(xs.get(3).unwrap().t, fx(6.0));
}

#[test]
fn test_intersect_sorted_across_shapes() {
    let w = World::default();
    let r = Ray::new(v3(0.0, 0.0, -5.0), v3(0.0, 0.0, 1.0));
    let mut xs: IntersectionHolder<Intersection> = IntersectionHolder::new(4);
    w.intersect(&r, &mut xs);

    let items = xs.vec();
    for k in 1..items.len() {
        assert!(items[k - 1].t.raw <= items[k].t.raw);
    }
    assert_eq!(items[0].sp, 0);
    assert_eq!(items[1].sp, 1);
    assert_eq!(items[2].sp, 1);
    assert_eq!(items[3].sp, 0);
}

#[test]
fn test_intersect_miss_is_empty() {
    let w = World::default();
    let r = Ray::new(v3(0.0, 10.0, -5.0), v3(0.0, 1.0, 0.0));
    let mut xs: IntersectionHolder<Intersection> = IntersectionHolder::new(4);
    w.intersect(&r, &mut xs);
    assert_eq!(xs.vec().len(), 0);
}

#[test]
fn test_holder_push_get_clear() {
    let mut h: IntersectionHolder<Intersection> = IntersectionHolder::new(2);
    assert!(h.get(0).is_none());
    h.push(Intersection { sp: 3, t: fx(1.5) });
    h.push(Intersection { sp: 1, t: fx(-0.5) });
    assert_eq!(h.len(), 2);
    assert_eq!(h.get(0).unwrap().sp, 3);
    assert_eq!(h.get(1).unwrap().t, fx(-0.5));
    assert_eq!(h.vec().len(), 2);
    h.clear();
    assert_eq!(h.vec().len(), 2);
}

#[test]
fn test_material_default_values() {
    let m = Material::default();
    assert_eq!(m.ambient, fx(0.1));
    assert_eq!(m.diffuse, fx(0.9));
    assert_eq!(m.specular, fx(0.9));
    assert_eq!(m.reflective, fx(0.0));
    assert_eq!(m.shininess, fx(200.0));
}

#[test]
fn test_material_stripes() {
    let odd = v3(1.0, 0.0, 0.0);
    let even = v3(0.0, 0.0, 1.0);
    let m = Material {
        pattern: Pattern::Stripped(odd, even),
        ..Material::default()
    };
    assert_eq!(*m.get_color(&v3(0.2, 0.0, 0.0)), even);
    assert_eq!(*m.get_color(&v3(1.3, 0.0, 0.0)), odd);
    assert_eq!(*m.get_color(&v3(2.6, 0.0, 0.0)), odd);
    assert_eq!(*m.get_color(&v3(-0.6, 0.0, 0.0)), odd);
    assert_eq!(*m.get_color(&v3(-2.2, 0.0, 0.0)), even);
}

#[test]
fn test_light_ray_at() {
    let l = Light::new(v3(0.0, 0.0, 0.0), v3(1.0, 1.0, 1.0));
    let r = l.ray_at(&v3(0.0, 0.0, 5.0));
    assert_eq!(r.org, v3(0.0, 0.0, 5.0));
    assert_eq!(r.dir, v3(0.0, 0.0, 1.0));
}

#[test]
fn test_camera_center_ray() {
    let cam = Camera::new(2, 2, fx(1.0), minirt::utils::matrix::Mat::identity(4));
    let r = cam.get_ray(1, 1);
    assert_eq!(r.org, v3(0.0, 0.0, 0.0));
    assert_eq!(r.dir, v3(0.0, 0.0, -1.0));
}

#[test]
fn test_camera_update_size() {
    let mut cam = Camera::new(2, 2, fx(1.0), minirt::utils::matrix::Mat::identity(4));
    cam.update_size(4, 8);
    assert_eq!(cam.width, 4);
    assert_eq!(cam.height, 8);
    assert_eq!(cam.x_step, fx(0.5));
    assert_eq!(cam.y_step, fx(0.25));
}
