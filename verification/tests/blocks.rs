use light_engine::engine::download_manager::{plan_blocks, plan_download, Block, DownloadPlan, BLOCK_SIZE};
use light_engine::task::status_is_success;

#[test]
fn a_small_file_is_one_block() {
    assert_eq!(plan_blocks(100), vec![Block { start: 0, end: 100, size: 100 }]);
    assert_eq!(plan_blocks(0), vec![Block { start: 0, end: 0, size: 0 }]);
    assert_eq!(plan_blocks(BLOCK_SIZE), vec![Block { start: 0, end: BLOCK_SIZE, size: BLOCK_SIZE }]);
}

#[test]
fn a_large_file_is_split_into_blocks() {
    let b = plan_blocks(BLOCK_SIZE + 1);
    assert_eq!(b, vec![
        Block { start: 0, end: BLOCK_SIZE, size: BLOCK_SIZE },
        Block { start: BLOCK_SIZE, end: BLOCK_SIZE + 1, size: 1 },
    ]);
    let b = plan_blocks(3 * BLOCK_SIZE);
    assert_eq!(b.len(), 3);
    assert_eq!(b[2], Block { start: 2 * BLOCK_SIZE, end: 3 * BLOCK_SIZE, size: BLOCK_SIZE });
}

#[test]
fn blocks_tile_the_file() {
    let size = 5 * BLOCK_SIZE + 12345;
    let b = plan_blocks(size);
    assert_eq!(b.len(), 6);
    assert_eq!(b[0].start, 0);
    for w in b.windows(2) {
        assert_eq!(w[0].end, w[1].start);
    }
    assert_eq!(b[5].end, size);
    assert_eq!(b.iter().map(|x| x.size).sum::<usize>(), size);
}

#[test]
fn range_header_values() {
    assert_eq!(Block { start: 0, end: 100, size: 100 }.range_value(), "bytes=0-100");
    assert_eq!(Block { start: 8388608, end: 16777216, size: 8388608 }.range_value(), "bytes=8388608-16777216");
}

#[test]
fn a_download_plan_is_whole_or_split() {
    match plan_download(1000) {
        DownloadPlan::Whole(b) => assert_eq!(b, Block { start: 0, end: 1000, size: 1000 }),
        other => panic!("unexpected plan {:?}", other),
    }
    match plan_download(2 * BLOCK_SIZE + 7) {
        DownloadPlan::Split(v) => {
            assert_eq!(v.len(), 3);
            assert_eq!(v[2], Block { start: 2 * BLOCK_SIZE, end: 2 * BLOCK_SIZE + 7, size: 7 });
        }
        other => panic!("unexpected plan {:?}", other),
    }
}

#[test]
fn only_2xx_statuses_are_successes() {
    assert!(status_is_success(200));
    assert!(status_is_success(206));
    assert!(status_is_success(299));
    assert!(!status_is_success(199));
    assert!(!status_is_success(300));
    assert!(!status_is_success(404));
}
