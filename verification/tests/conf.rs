use ngx::conf::{ngx_get_conf, ConfTable, Module};

const WIDTH: usize = std::mem::size_of::<usize>();

fn module(index: usize) -> Module {
    Module { ctx_index: 7, index }
}

#[test]
fn configuration_lies_at_the_slot_of_the_module() {
    let conf_ctx = [ConfTable { base: 0x1000 }, ConfTable { base: 0x9000 }];
    let conf = ngx_get_conf::<u8>(&conf_ctx, &module(5));
    assert_eq!(conf.addr(), 0x1000 + 5 * WIDTH);
    assert_eq!(ngx_get_conf::<u8>(&conf_ctx, &module(0)).addr(), 0x1000);
}

#[test]
fn expected_type_does_not_move_the_configuration() {
    let conf_ctx = [ConfTable { base: 0x2000 }];
    let byte = ngx_get_conf::<u8>(&conf_ctx, &module(3));
    let text = ngx_get_conf::<String>(&conf_ctx, &module(3));
    assert_eq!(byte.addr(), text.addr());
}

#[test]
fn address_is_that_of_the_array_element() {
    let slots = [0usize; 6];
    let table = ConfTable { base: slots.as_ptr() as usize };
    for index in 0..6 {
        assert!(table.can_reach(index));
        assert_eq!(table.slot(index), slots[index..].as_ptr() as usize);
        assert_eq!(
            ngx_get_conf::<usize>(&[table], &module(index)).addr(),
            slots[index..].as_ptr() as usize
        );
    }
}

#[test]
fn slots_do_not_overlap() {
    let table = ConfTable { base: 0x4000 };
    assert_eq!(table.slot(2) + WIDTH, table.slot(3));
    assert_eq!(table.slot(9) % WIDTH, 0);
}

#[test]
fn reach_ends_at_the_largest_distance() {
    let table = ConfTable { base: 0 };
    let last = isize::MAX as usize / WIDTH;
    assert!(table.can_reach(last));
    assert!(!table.can_reach(last + 1));
    assert!(!table.can_reach(usize::MAX / WIDTH + 1));
}

#[test]
fn reach_ends_at_the_largest_address() {
    let table = ConfTable { base: usize::MAX - 2 * WIDTH };
    assert!(table.can_reach(2));
    assert_eq!(table.slot(2), usize::MAX);
    assert!(!table.can_reach(3));
}

#[test]
fn unset_index_is_out_of_reach() {
    assert!(!ConfTable { base: 0 }.can_reach(usize::MAX));
    assert!(!ConfTable { base: 0x1000 }.can_reach(usize::MAX));
}
