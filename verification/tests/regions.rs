//! Region-list behaviour: clipping to the kernel window, elision of empty
//! regions, and capacity safety of the fixed-size list.
use bootsys::basic_types::PhysRegion;
use bootsys::boot::{add_mem_phys_regs, MemPRegs, MAX_NUM_FREEMEM_REG};
use bootsys::fixedarr::FixedArr;
use bootsys::hardware::PADDR_TOP;

#[test]
fn region_reaching_past_ceiling_is_clipped() {
    let mut regs: MemPRegs = FixedArr::new();
    let r = add_mem_phys_regs(&mut regs, PhysRegion { start: 0x100000, end: PADDR_TOP + 0x1000 });
    assert!(r.is_ok());
    assert_eq!(regs.len(), 1);
    assert_eq!(*regs.get(0), PhysRegion { start: 0x100000, end: PADDR_TOP });
}

#[test]
fn region_entirely_past_ceiling_is_ignored() {
    let mut regs: MemPRegs = FixedArr::new();
    let r = add_mem_phys_regs(
        &mut regs,
        PhysRegion { start: PADDR_TOP + 0x1000, end: PADDR_TOP + 0x2000 },
    );
    assert!(r.is_ok());
    assert_eq!(regs.len(), 0);
}

#[test]
fn empty_region_is_elided() {
    let mut regs: MemPRegs = FixedArr::new();
    let r = add_mem_phys_regs(&mut regs, PhysRegion { start: 0x300000, end: 0x300000 });
    assert!(r.is_ok());
    assert_eq!(regs.len(), 0);

    // An empty region does not count against capacity even when full.
    for i in 0..MAX_NUM_FREEMEM_REG as u64 {
        let ok = add_mem_phys_regs(
            &mut regs,
            PhysRegion { start: 0x100000 * (i + 1), end: 0x100000 * (i + 1) + 0x1000 },
        );
        assert!(ok.is_ok());
    }
    assert_eq!(regs.len(), MAX_NUM_FREEMEM_REG);
    let r = add_mem_phys_regs(&mut regs, PhysRegion { start: 0x77000, end: 0x77000 });
    assert!(r.is_ok());
    assert_eq!(regs.len(), MAX_NUM_FREEMEM_REG);
}

#[test]
fn capacity_overflow_rejects_and_preserves() {
    let mut regs: MemPRegs = FixedArr::new();
    for i in 0..MAX_NUM_FREEMEM_REG as u64 {
        let ok = add_mem_phys_regs(
            &mut regs,
            PhysRegion { start: 0x100000 * (i + 1), end: 0x100000 * (i + 1) + 0x1000 },
        );
        assert!(ok.is_ok());
    }
    assert_eq!(regs.len(), MAX_NUM_FREEMEM_REG);
    // The N+1-th region is rejected; the first N stay exactly as pushed.
    let r = add_mem_phys_regs(&mut regs, PhysRegion { start: 0x9900000, end: 0x9910000 });
    assert!(r.is_err());
    assert_eq!(regs.len(), MAX_NUM_FREEMEM_REG);
    for i in 0..MAX_NUM_FREEMEM_REG as u64 {
        assert_eq!(
            *regs.get(i as usize),
            PhysRegion { start: 0x100000 * (i + 1), end: 0x100000 * (i + 1) + 0x1000 }
        );
    }
}

#[test]
fn fixed_arr_try_push_first_wins() {
    let mut arr: FixedArr<u64, 3> = FixedArr::new();
    assert_eq!(arr.len(), 0);
    assert!(arr.try_push(10).is_ok());
    assert!(arr.try_push(11).is_ok());
    assert!(arr.try_push(12).is_ok());
    // Pushing N+1 items into a capacity-N list leaves exactly the first N.
    assert_eq!(arr.try_push(13), Err(13));
    assert_eq!(arr.len(), 3);
    assert_eq!(arr.as_slice(), &[10, 11, 12]);
}

#[test]
fn fixed_arr_constructors_and_iter() {
    let a: FixedArr<u32, 4> = FixedArr::new();
    assert_eq!(a.len(), 0);
    let b: FixedArr<String, 2> = FixedArr::new_from_example(String::new());
    assert_eq!(b.len(), 0);
    let c: FixedArr<u8, 2> = FixedArr::new_from_fn(|i| i as u8);
    assert_eq!(c.len(), 0);

    let mut d: FixedArr<u8, 2> = FixedArr::new();
    d.push(5);
    d.push(6);
    let collected: Vec<u8> = d.iter().copied().collect();
    assert_eq!(collected, vec![5, 6]);
}
