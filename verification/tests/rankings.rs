use libriichi::rankings::Rankings;

#[test]
fn rankings() {
    let scores = [35000, 35000, 30000];
    let rk = Rankings::new(scores);
    assert_eq!(rk.player_by_rank, [0, 1, 2]);
    assert_eq!(rk.rank_by_player, [0, 1, 2]);

    let scores = [20000, 40000, 40000];
    let rk = Rankings::new(scores);
    assert_eq!(rk.player_by_rank, [1, 2, 0]);
    assert_eq!(rk.rank_by_player, [2, 0, 1]);
}

#[test]
fn rankings_all_tied_keep_seat_order() {
    let rk = Rankings::new([35000, 35000, 35000]);
    assert_eq!(rk.player_by_rank, [0, 1, 2]);
    assert_eq!(rk.rank_by_player, [0, 1, 2]);
}

#[test]
fn rankings_reverse_order_and_negative_scores() {
    let rk = Rankings::new([-5000, 10000, 60000]);
    assert_eq!(rk.player_by_rank, [2, 1, 0]);
    assert_eq!(rk.rank_by_player, [2, 1, 0]);

    let rk = Rankings::new([i32::MAX, i32::MIN + 1, 0]);
    assert_eq!(rk.player_by_rank, [0, 2, 1]);
    assert_eq!(rk.rank_by_player, [0, 2, 1]);
}

#[test]
fn rankings_rank_inverts_order() {
    for scores in [[1, 2, 3], [3, 1, 2], [2, 2, 1], [1, 2, 2], [5, 1, 5]] {
        let rk = Rankings::new(scores);
        for r in 0..3 {
            assert_eq!(rk.rank_by_player[rk.player_by_rank[r] as usize] as usize, r);
        }
        for r in 0..2 {
            let a = rk.player_by_rank[r] as usize;
            let b = rk.player_by_rank[r + 1] as usize;
            assert!(scores[a] > scores[b] || (scores[a] == scores[b] && a < b));
        }
    }
}
