use fastjob_worker::box_new_service::{BoxNewService, Layer, NewService};

#[derive(Clone)]
struct OffsetFactory {
    offset: u64,
}

impl NewService<u64> for OffsetFactory {
    type Service = u64;

    fn new_service(&mut self, target: u64) -> u64 {
        target + self.offset
    }
}

#[test]
fn boxed_factory_forwards_construction() {
    let mut boxed = BoxNewService::new(OffsetFactory { offset: 1 });
    assert_eq!(boxed.new_service(41), 42);
}

#[test]
fn layer_wraps_a_factory() {
    let layer = BoxNewService::<OffsetFactory>::layer();
    let mut boxed = layer.layer(OffsetFactory { offset: 10 });
    assert_eq!(boxed.new_service(5), 15);
}

#[test]
fn boxed_factory_clones() {
    let boxed = BoxNewService::new(OffsetFactory { offset: 2 });
    let mut copy = boxed.clone();
    let mut first = boxed;
    assert_eq!(copy.new_service(1), first.new_service(1));
}
