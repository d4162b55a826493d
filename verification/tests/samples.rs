use messrust::samples::buffer::FixedBuffer;
use messrust::samples::counter::{Counter, Shape};
use messrust::samples::edges::{local_only, Wrapper};
use messrust::samples::flag::Flag;
use messrust::samples::orders::{add_item, order_total, Order};
use messrust::samples::plain::pure;
use messrust::samples::repository::{Context, Error, Repository, User};
use messrust::samples::service::{Config, Helper, Service};
use messrust::samples::target::Target;
use messrust::samples::tasks::Task;
use messrust::samples::worker::Worker;

#[test]
fn prints() {
    println!("x");
}

#[test]
fn order_total_counts_ten_items_tax_and_the_version() {
    assert_eq!(order_total(&[1, 2, 3], 4), 13);
    let many = [1u32; 12];
    assert_eq!(order_total(&many, 0), 13);
}

#[test]
fn orders_grow_and_clear() {
    let mut order = Order { items: vec![] };
    add_item(&mut order, 5);
    add_item(&mut order, 7);
    assert_eq!(order.count(), 2);
    assert_eq!(order.items, vec![5, 7]);
    order.clear();
    assert_eq!(order.count(), 0);
}

#[test]
fn local_only_sums_below_and_adds_one() {
    assert_eq!(local_only(0), 1);
    assert_eq!(local_only(5), 11);
}

#[test]
fn wrapper_sets_a_clone() {
    let w = Wrapper(String::from("v"));
    let mut dst = String::new();
    w.set(&mut dst);
    assert_eq!(dst, "v");
}

#[test]
fn counter_steps() {
    let mut c = Counter::new(3);
    assert_eq!(c.value(), 0);
    c.tick();
    c.tick();
    assert_eq!(c.value(), 6);
    assert_eq!(c.area(), 6);
    assert_eq!(c.double(), 12);
    assert_eq!(c.scaled(&[1, 2, 5]), vec![3, 6, 15]);
    c.reset();
    assert_eq!(c.value(), 0);
    c.tick();
    assert_eq!(c.into_count(), 3);
}

struct Store;

impl Repository for Store {
    fn find_by_id(&self, _id: u64) -> Option<User> {
        None
    }

    fn save(&self, _user: &User, _ctx: &Context) -> Result<(), Error> {
        Ok(())
    }
}

struct Echo;

impl Worker for Echo {
    fn run(&self, payload: String) {
        assert!(!payload.is_empty());
    }
}

#[test]
fn small_types_behave() {
    assert_eq!(pure(9), 9);
    assert!(Flag(true).get());
    assert!(!Flag(false).get());
    assert_eq!(Store.default_helper("p"), "p: default");
    assert!(Store.find_by_id(1).is_none());
    assert!(Store.save(&User, &Context).is_ok());
    Echo.run("job".to_string());
    let t = Task;
    assert!(t.get_ready() && t.get_status() && t.getting_started() && t.getter() && t.gets_updated());
    let b = FixedBuffer { buffer: [0u8; 4] };
    assert_eq!(b.capacity(), 4);
}

#[test]
fn service_follows_its_settings() {
    let s = Service::new(Config { max_retries: 3, timeout_ms: 10 });
    assert!(s.is_ready());
    assert!(s.check_limit(2));
    assert!(!s.check_limit(3));
    assert_eq!(s.compute(), 100);
    assert_eq!(s.configure_pipeline(1, 2, 3, 4, 5, 6, 7, 8, 9, 10, 11), 66);
    s.process_order(1, true);
    s.audit();
    Helper::log("x");
    let idle = Service::new(Config { max_retries: 0, timeout_ms: 10 });
    assert!(!idle.is_ready());
    let t = Target;
    assert_eq!(t.wide_function(1, 1, 1, 1, 1, 1, 1, 1, 1, 1, 1), 11);
    assert_eq!(t.unsuppressed_wide(0, 0, 0, 0, 0, 0, 0, 0, 0, 0, 2), 2);
}
