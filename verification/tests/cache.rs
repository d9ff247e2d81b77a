use voxel_faces::cache::BindingCache;
use voxel_faces::direction::Direction;
use voxel_faces::face::FaceData;
use voxel_faces::frame::plan_frame;
use voxel_faces::store::FaceStore;

fn some_faces(n: usize) -> Vec<FaceData> {
    let mut v = Vec::new();
    for i in 0..n {
        v.push(FaceData::new(i as u8, 1, 2, 3, 4));
    }
    v
}

#[test]
fn empty_store_still_builds_bindings() {
    let mut cache = BindingCache::new(FaceStore::new());
    assert_eq!(cache.mask(), 0);
    let b = cache.get_or_rebuild();
    assert_eq!(b.offsets, vec![0, 0, 0, 0, 0, 0, 0]);
    // One zero pad byte stands in for the empty descriptor stream.
    assert_eq!(b.descriptor_bytes, vec![0]);
}

#[test]
fn offsets_table_has_closing_sentinel() {
    let mut cache = BindingCache::new(FaceStore::new());
    cache.replace(Direction::UP, some_faces(3));
    cache.replace(Direction::RIGHT, some_faces(2));
    let b = cache.get_or_rebuild();
    assert_eq!(b.offsets, vec![3, 3, 3, 5, 5, 5, 5]);
    assert_eq!(b.descriptor_bytes.len(), 4 * 5);
}

#[test]
fn descriptor_bytes_hold_the_concatenation() {
    let mut cache = BindingCache::new(FaceStore::new());
    cache.replace(Direction::DOWN, vec![FaceData::new(1, 2, 3, 4, 5)]);
    let b = cache.get_or_rebuild();
    assert_eq!(b.descriptor_bytes, vec![0x21, 0x03, 4, 5]);
}

#[test]
fn rebuild_reflects_replaced_data_immediately() {
    let mut cache = BindingCache::new(FaceStore::new());
    cache.replace(Direction::UP, some_faces(4));
    let first = cache.get_or_rebuild().offsets.clone();
    assert_eq!(first[0], 4);
    // A new replace must invalidate: the next rebuild sees the new
    // data, never the cached table.
    cache.replace(Direction::UP, some_faces(7));
    let second = cache.get_or_rebuild().offsets.clone();
    assert_eq!(second[0], 7);
}

#[test]
fn get_or_rebuild_is_idempotent_without_mutation() {
    let mut cache = BindingCache::new(FaceStore::new());
    cache.replace(Direction::FRONT, some_faces(2));
    assert_eq!(cache.rebuild_count(), 0);
    let first = {
        let b = cache.get_or_rebuild();
        (b.offsets.clone(), b.descriptor_bytes.clone())
    };
    assert_eq!(cache.rebuild_count(), 1);
    let second = {
        let b = cache.get_or_rebuild();
        (b.offsets.clone(), b.descriptor_bytes.clone())
    };
    // No intervening mutation: identical contents, no new rebuild.
    assert_eq!(cache.rebuild_count(), 1);
    assert_eq!(first, second);
    cache.replace(Direction::FRONT, some_faces(1));
    cache.get_or_rebuild();
    assert_eq!(cache.rebuild_count(), 2);
}

#[test]
fn full_scene_plans_twelve_vertices() {
    let mut cache = BindingCache::new(FaceStore::new());
    for d in [
        Direction::UP,
        Direction::DOWN,
        Direction::LEFT,
        Direction::RIGHT,
        Direction::FRONT,
        Direction::BACK,
    ] {
        cache.replace(d, some_faces(2));
    }
    assert_eq!(cache.mask(), 0b111111);
    let b = cache.get_or_rebuild();
    assert_eq!(b.offsets, vec![2, 4, 6, 8, 10, 12, 12]);
    let plan = plan_frame(true, &cache).expect("an acquired frame is planned");
    assert_eq!(plan.workgroups_x, 1);
    assert_eq!(plan.workgroups_y, 6);
    assert_eq!(plan.workgroups_z, 1);
    // The compute stage expands one vertex per descriptor.
    assert_eq!(plan.draw_vertex_count, 12);
}

#[test]
fn failed_acquisition_skips_the_frame() {
    let cache = BindingCache::new(FaceStore::new());
    assert!(plan_frame(false, &cache).is_none());
}
