use ocl_buffer::command::{
    BufferCmd, BufferCmdDataShape, BufferCmdKind, BufferOp, Enqueue, EnqueueMap, RectRegion,
};
use ocl_buffer::error::Error;
use ocl_buffer::handle::{Event, MapFlags, MemCore, Queue};
use std::marker::PhantomData;

const QUEUE: Queue = Queue { raw: 11 };
const OTHER_QUEUE: Queue = Queue { raw: 12 };
const MEM: MemCore = MemCore { raw: 21 };
const DST: MemCore = MemCore { raw: 22 };

fn cmd<'b>(mem_len: usize) -> BufferCmd<'b, u32> {
    BufferCmd::new(&QUEUE, &MEM, mem_len)
}

fn rect_cmd<'b>(mem_len: usize) -> BufferCmd<'b, u32> {
    cmd(mem_len).rect([1, 2, 3], [4, 5, 6], [7, 8, 9], 10, 11, 12, 13)
}

fn rect_region() -> RectRegion {
    RectRegion {
        src_origin: [1, 2, 3],
        dst_origin: [4, 5, 6],
        region: [7, 8, 9],
        src_row_pitch: 10,
        src_slc_pitch: 11,
        dst_row_pitch: 12,
        dst_slc_pitch: 13,
    }
}

#[test]
fn a_new_builder_has_the_defaults() {
    let c = cmd(10);
    assert!(c.kind().is_unspec());
    assert_eq!(*c.kind(), BufferCmdKind::Unspecified);
    assert_eq!(*c.shape(), BufferCmdDataShape::Lin { offset: 0 });
    assert!(c.is_blocking());
    assert!(c.accepts_kind());
    assert!(c.accepts_block(false));
    assert!(c.accepts_block(true));
    assert!(c.accepts_offset());
    assert!(c.accepts_rect());
    assert!(c.accepts_enq());
}

#[test]
fn is_unspec_holds_of_the_unset_kind_only() {
    let mut buf = [0u32; 2];
    let src = [0u32; 2];
    let unset: BufferCmdKind<u32> = BufferCmdKind::Unspecified;
    assert!(unset.is_unspec());
    let set: [BufferCmdKind<u32>; 8] = [
        BufferCmdKind::Read { data: &mut buf[..] },
        BufferCmdKind::Write { data: &src[..] },
        BufferCmdKind::MapBuffer { flags: None, len: None },
        BufferCmdKind::Copy { dst_buffer: &DST, dst_offset: None, len: None },
        BufferCmdKind::Fill { pattern: 0u32, len: None },
        BufferCmdKind::CopyToImage { image: &DST, dst_origin: [0; 3], region: [0; 3] },
        BufferCmdKind::GLAcquire,
        BufferCmdKind::GLRelease,
    ];
    for kind in set.iter() {
        assert!(!kind.is_unspec());
    }
}

#[test]
fn each_of_the_nine_selectors_closes_the_builder_to_all_of_them() {
    let mut a = [0u32; 3];
    let mut b = [0u32; 3];
    let src = [1u32, 2, 3];
    assert!(!cmd(10).read(&mut a).accepts_kind());
    assert!(!cmd(10).read_async(&mut b).accepts_kind());
    assert!(!cmd(10).write(&src).accepts_kind());
    assert!(!cmd(10).map(None, None).accepts_kind());
    assert!(!cmd(10).copy(&DST, None, None).accepts_kind());
    assert!(!cmd(10).copy_to_image(&DST, [0; 3], [1; 3]).accepts_kind());
    assert!(!cmd(10).gl_acquire().accepts_kind());
    assert!(!cmd(10).gl_release().accepts_kind());
    assert!(!cmd(10).fill(9, None).accepts_kind());
}

#[test]
fn selectors_store_their_arguments() {
    let src = [1u32, 2, 3];
    assert_eq!(*cmd(10).write(&src).kind(), BufferCmdKind::Write { data: &src[..] });
    assert_eq!(
        *cmd(10).map(Some(MapFlags { bits: 2 }), Some(4)).kind(),
        BufferCmdKind::MapBuffer { flags: Some(MapFlags { bits: 2 }), len: Some(4) }
    );
    assert_eq!(
        *cmd(10).copy(&DST, Some(3), Some(4)).kind(),
        BufferCmdKind::Copy { dst_buffer: &DST, dst_offset: Some(3), len: Some(4) }
    );
    assert_eq!(
        *cmd(10).copy_to_image(&DST, [1, 2, 3], [4, 5, 6]).kind(),
        BufferCmdKind::CopyToImage { image: &DST, dst_origin: [1, 2, 3], region: [4, 5, 6] }
    );
    assert_eq!(*cmd(10).gl_acquire().kind(), BufferCmdKind::GLAcquire);
    assert_eq!(*cmd(10).gl_release().kind(), BufferCmdKind::GLRelease);
    assert_eq!(*cmd(10).fill(9, Some(2)).kind(), BufferCmdKind::Fill { pattern: 9, len: Some(2) });
    let mut dst = [0u32; 4];
    match cmd(10).read(&mut dst).kind() {
        BufferCmdKind::Read { data } => assert_eq!(data.len(), 4),
        other => panic!("unexpected kind {:?}", other),
    }
}

#[test]
fn read_locks_blocking_on() {
    let mut dst = [0u32; 3];
    let c = cmd(10).block(false).read(&mut dst);
    assert!(c.is_blocking());
    assert!(!c.accepts_block(false));
    assert!(c.accepts_block(true));
    let c = c.block(true);
    assert!(c.is_blocking());
}

#[test]
fn read_async_leaves_blocking_as_it_stands() {
    let mut a = [0u32; 3];
    let mut b = [0u32; 3];
    let on = cmd(10).read_async(&mut a);
    assert!(on.is_blocking());
    assert!(on.accepts_block(false));
    let off = cmd(10).block(false).read_async(&mut b);
    assert!(!off.is_blocking());
    assert!(!off.block(true).block(false).is_blocking());
}

#[test]
fn an_offset_and_a_rectangular_region_exclude_each_other() {
    assert!(!rect_cmd(10).accepts_offset());
    assert!(rect_cmd(10).accepts_rect());
    assert!(!cmd(10).offset(3).accepts_rect());
    assert!(cmd(10).offset(3).accepts_offset());
    assert!(cmd(10).offset(0).accepts_rect());
    assert_eq!(*cmd(10).offset(3).offset(4).shape(), BufferCmdDataShape::Lin { offset: 4 });
    assert_eq!(
        *rect_cmd(10).shape(),
        BufferCmdDataShape::Rect {
            src_origin: [1, 2, 3],
            dst_origin: [4, 5, 6],
            region: [7, 8, 9],
            src_row_pitch: 10,
            src_slc_pitch: 11,
            dst_row_pitch: 12,
            dst_slc_pitch: 13,
        }
    );
}

#[test]
fn enq_without_an_operation_is_refused() {
    assert_eq!(cmd(10).enq(), Err(Error::NoOperation));
    assert_eq!(rect_cmd(10).enq(), Err(Error::NoOperation));
}

#[test]
fn enq_of_a_map_points_to_the_map_path() {
    assert_eq!(cmd(10).map(None, None).enq(), Err(Error::MapUsesEnqMap));
    assert_eq!(rect_cmd(10).map(None, Some(1)).enq(), Err(Error::MapUsesEnqMap));
}

#[test]
fn enq_of_a_linear_write_checks_the_bounds() {
    let five = [1u32, 2, 3, 4, 5];
    let six = [1u32, 2, 3, 4, 5, 6];
    assert_eq!(
        cmd(10).offset(5).write(&five).enq(),
        Ok(Enqueue {
            queue: &QUEUE,
            obj_core: &MEM,
            op: BufferOp::Write { block: true, offset: 5, data: &five[..] },
            ewait: None,
            enew: None,
        })
    );
    assert_eq!(
        cmd(10).offset(10).write(&five).enq(),
        Err(Error::OffsetOutOfRange { mem_len: 10, data_len: 5, offset: 10 })
    );
    assert_eq!(cmd(10).offset(5).write(&six).enq(), Err(Error::DataLenExceedsBuffer));
    let none: [u32; 0] = [];
    assert_eq!(
        cmd(10).offset(10).write(&none).enq(),
        Err(Error::OffsetOutOfRange { mem_len: 10, data_len: 0, offset: 10 })
    );
    assert_eq!(
        cmd(0).write(&none).enq(),
        Err(Error::OffsetOutOfRange { mem_len: 0, data_len: 0, offset: 0 })
    );
}

#[test]
fn enq_of_a_linear_read_checks_the_bounds_and_hands_the_slice_on() {
    let mut dst = [0u32; 4];
    match cmd(10).offset(6).read(&mut dst).enq() {
        Ok(Enqueue { queue, obj_core, op: BufferOp::Read { block, offset, data }, ewait, enew }) => {
            assert_eq!((*queue, *obj_core), (QUEUE, MEM));
            assert!(block);
            assert_eq!(offset, 6);
            assert_eq!(data.len(), 4);
            assert!(ewait.is_none() && enew.is_none());
            data[3] = 99;
        },
        other => panic!("unexpected result {:?}", other),
    }
    assert_eq!(dst, [0, 0, 0, 99]);
    assert_eq!(cmd(10).offset(7).read(&mut dst).enq(), Err(Error::DataLenExceedsBuffer));
    assert_eq!(
        cmd(10).offset(11).read(&mut dst).enq(),
        Err(Error::OffsetOutOfRange { mem_len: 10, data_len: 4, offset: 11 })
    );
}

#[test]
fn enq_of_a_read_chosen_as_blocking_always_blocks() {
    let mut a = [0u32; 2];
    let mut b = [0u32; 2];
    let mut c = [0u32; 2];
    match cmd(10).block(false).read(&mut a).enq() {
        Ok(Enqueue { op: BufferOp::Read { block, .. }, .. }) => assert!(block),
        other => panic!("unexpected result {:?}", other),
    }
    match rect_cmd(10).block(false).read(&mut b).enq() {
        Ok(Enqueue { op: BufferOp::ReadRect { block, .. }, .. }) => assert!(block),
        other => panic!("unexpected result {:?}", other),
    }
    match cmd(10).block(false).read_async(&mut c).enq() {
        Ok(Enqueue { op: BufferOp::Read { block, .. }, .. }) => assert!(!block),
        other => panic!("unexpected result {:?}", other),
    }
}

#[test]
fn enq_of_a_rectangular_read_or_write_is_not_checked_here() {
    let big = [0u32; 64];
    assert_eq!(
        rect_cmd(4).block(false).write(&big).enq(),
        Ok(Enqueue {
            queue: &QUEUE,
            obj_core: &MEM,
            op: BufferOp::WriteRect { block: false, rect: rect_region(), data: &big[..] },
            ewait: None,
            enew: None,
        })
    );
    let mut dst = [0u32; 64];
    match rect_cmd(4).read(&mut dst).enq() {
        Ok(Enqueue { op: BufferOp::ReadRect { block, rect, data }, .. }) => {
            assert!(block);
            assert_eq!(rect, rect_region());
            assert_eq!(data.len(), 64);
        },
        other => panic!("unexpected result {:?}", other),
    }
}

#[test]
fn enq_of_a_linear_copy_fills_in_the_defaults() {
    assert_eq!(
        cmd(10).copy(&DST, None, None).enq(),
        Ok(Enqueue {
            queue: &QUEUE,
            obj_core: &MEM,
            op: BufferOp::Copy { dst_buffer: &DST, src_offset: 0, dst_offset: 0, len: 10 },
            ewait: None,
            enew: None,
        })
    );
    assert_eq!(
        cmd(10).offset(2).copy(&DST, Some(7), Some(8)).enq(),
        Ok(Enqueue {
            queue: &QUEUE,
            obj_core: &MEM,
            op: BufferOp::Copy { dst_buffer: &DST, src_offset: 2, dst_offset: 7, len: 8 },
            ewait: None,
            enew: None,
        })
    );
    assert_eq!(cmd(10).offset(2).copy(&DST, None, None).enq(), Err(Error::DataLenExceedsBuffer));
    assert_eq!(cmd(10).offset(2).copy(&DST, None, Some(9)).enq(), Err(Error::DataLenExceedsBuffer));
    assert_eq!(
        cmd(10).offset(10).copy(&DST, None, Some(0)).enq(),
        Err(Error::OffsetOutOfRange { mem_len: 10, data_len: 0, offset: 10 })
    );
}

#[test]
fn enq_of_a_rectangular_copy_takes_no_offset_and_no_length() {
    assert_eq!(
        rect_cmd(10).copy(&DST, None, None).enq(),
        Ok(Enqueue {
            queue: &QUEUE,
            obj_core: &MEM,
            op: BufferOp::CopyRect { dst_buffer: &DST, rect: rect_region() },
            ewait: None,
            enew: None,
        })
    );
    assert_eq!(rect_cmd(10).copy(&DST, Some(0), None).enq(), Err(Error::RectCopyParams));
    assert_eq!(rect_cmd(10).copy(&DST, None, Some(10)).enq(), Err(Error::RectCopyParams));
    assert_eq!(rect_cmd(10).copy(&DST, Some(1), Some(2)).enq(), Err(Error::RectCopyParams));
}

#[test]
fn enq_of_a_fill_covers_the_whole_object_by_default() {
    assert_eq!(
        cmd(10).fill(7, None).enq(),
        Ok(Enqueue {
            queue: &QUEUE,
            obj_core: &MEM,
            op: BufferOp::Fill { pattern: 7, offset: 0, len: 10 },
            ewait: None,
            enew: None,
        })
    );
    assert_eq!(
        cmd(10).offset(4).fill(7, Some(6)).enq(),
        Ok(Enqueue {
            queue: &QUEUE,
            obj_core: &MEM,
            op: BufferOp::Fill { pattern: 7, offset: 4, len: 6 },
            ewait: None,
            enew: None,
        })
    );
    assert_eq!(cmd(10).offset(4).fill(7, None).enq(), Err(Error::DataLenExceedsBuffer));
    assert_eq!(cmd(10).offset(4).fill(7, Some(7)).enq(), Err(Error::DataLenExceedsBuffer));
    assert_eq!(
        cmd(0).fill(7, None).enq(),
        Err(Error::OffsetOutOfRange { mem_len: 0, data_len: 0, offset: 0 })
    );
}

#[test]
fn enq_of_a_rectangular_fill_is_refused() {
    assert_eq!(rect_cmd(10).fill(7, None).enq(), Err(Error::RectFill));
    assert_eq!(rect_cmd(10).fill(7, Some(1)).enq(), Err(Error::RectFill));
}

#[test]
fn enq_of_a_gl_request_ignores_shape_and_blocking() {
    for shape_is_rect in [false, true] {
        for block in [false, true] {
            let base = if shape_is_rect { rect_cmd(0) } else { cmd(0).offset(5) };
            assert_eq!(
                base.block(block).gl_acquire().enq(),
                Ok(Enqueue { queue: &QUEUE, obj_core: &MEM, op: BufferOp::GLAcquire, ewait: None, enew: None })
            );
            let base = if shape_is_rect { rect_cmd(0) } else { cmd(0).offset(5) };
            assert_eq!(
                base.block(block).gl_release().enq(),
                Ok(Enqueue { queue: &QUEUE, obj_core: &MEM, op: BufferOp::GLRelease, ewait: None, enew: None })
            );
        }
    }
}

#[test]
fn enq_cannot_consume_a_copy_to_an_image() {
    let c = cmd(10).copy_to_image(&DST, [0; 3], [1; 3]);
    assert!(!c.accepts_enq());
    assert_eq!(c.enq_map().err(), Some(Error::NotAMapOperation));
}

#[test]
fn enq_hands_on_the_queue_the_wait_list_and_the_event_slot() {
    let events = [Event { raw: 5 }, Event { raw: 6 }];
    let mut slot = Event { raw: 0 };
    let src = [1u32];
    match cmd(10).queue(&OTHER_QUEUE).ewait(&events).enew(&mut slot).write(&src).enq() {
        Ok(Enqueue { queue, obj_core, ewait, enew, .. }) => {
            assert_eq!(*queue, OTHER_QUEUE);
            assert_eq!(*obj_core, MEM);
            assert_eq!(ewait, Some(&events[..]));
            *enew.unwrap() = Event { raw: 77 };
        },
        other => panic!("unexpected result {:?}", other),
    }
    assert_eq!(slot, Event { raw: 77 });
}

#[test]
fn the_optional_setters_clear_what_was_set() {
    let events = [Event { raw: 5 }];
    let mut slot = Event { raw: 0 };
    let src = [1u32];
    let req = cmd(10)
        .ewait(&events)
        .enew(&mut slot)
        .ewait_opt(None)
        .enew_opt(None)
        .write(&src)
        .enq()
        .unwrap();
    assert_eq!(req.ewait, None);
    assert_eq!(req.enew, None);
    let mut slot = Event { raw: 0 };
    let req = cmd(10).ewait_opt(Some(&events)).enew_opt(Some(&mut slot)).write(&src).enq().unwrap();
    assert_eq!(req.ewait, Some(&events[..]));
    assert!(req.enew.is_some());
}

#[test]
fn enq_map_fills_in_the_defaults() {
    assert_eq!(
        cmd(10).map(None, None).enq_map(),
        Ok(EnqueueMap {
            queue: &QUEUE,
            obj_core: &MEM,
            block: true,
            flags: MapFlags::empty(),
            offset: 0,
            len: 10,
            ewait: None,
            enew: None,
            elem: PhantomData,
        })
    );
    assert_eq!(MapFlags::empty(), MapFlags { bits: 0 });
    let events = [Event { raw: 5 }];
    let mut slot = Event { raw: 0 };
    let req = cmd(10)
        .offset(3)
        .block(false)
        .queue(&OTHER_QUEUE)
        .ewait(&events)
        .enew(&mut slot)
        .map(Some(MapFlags { bits: 3 }), Some(7))
        .enq_map()
        .unwrap();
    assert_eq!(*req.queue, OTHER_QUEUE);
    assert!(!req.block);
    assert_eq!(req.flags, MapFlags { bits: 3 });
    assert_eq!((req.offset, req.len), (3, 7));
    assert_eq!(req.ewait, Some(&events[..]));
    assert!(req.enew.is_some());
}

#[test]
fn enq_map_checks_the_bounds() {
    assert_eq!(cmd(10).offset(3).map(None, None).enq_map(), Err(Error::DataLenExceedsBuffer));
    assert_eq!(cmd(10).offset(3).map(None, Some(8)).enq_map(), Err(Error::DataLenExceedsBuffer));
    assert_eq!(
        cmd(10).offset(10).map(None, Some(0)).enq_map(),
        Err(Error::OffsetOutOfRange { mem_len: 10, data_len: 0, offset: 10 })
    );
}

#[test]
fn enq_map_of_a_rectangular_builder_is_refused() {
    assert_eq!(rect_cmd(10).map(None, None).enq_map(), Err(Error::RectMap));
}

#[test]
fn enq_map_without_a_map_is_refused() {
    let src = [1u32];
    let mut dst = [0u32];
    assert_eq!(cmd(10).enq_map(), Err(Error::NoMapOperation));
    assert_eq!(rect_cmd(10).enq_map(), Err(Error::NoMapOperation));
    assert_eq!(cmd(10).write(&src).enq_map(), Err(Error::NotAMapOperation));
    assert_eq!(cmd(10).read(&mut dst).enq_map(), Err(Error::NotAMapOperation));
    assert_eq!(cmd(10).copy(&DST, None, None).enq_map(), Err(Error::NotAMapOperation));
    assert_eq!(cmd(10).fill(1, None).enq_map(), Err(Error::NotAMapOperation));
    assert_eq!(cmd(10).gl_acquire().enq_map(), Err(Error::NotAMapOperation));
    assert_eq!(cmd(10).gl_release().enq_map(), Err(Error::NotAMapOperation));
}
