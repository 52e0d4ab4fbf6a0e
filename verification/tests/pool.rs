use std::collections::HashSet;

use rand::Rng;
use rand::SeedableRng;

use game_core::card::{CardCatalog, CardData, CardId, CardType, ClassId, PlayerId, Rarity};
use game_core::config::GameConfig;
use game_core::draws::refresh_shop;
use game_core::pool::{DistributeError, FamilyIndex, ManualRefreshCount, PlayerPool, PoolFilter};

fn make_card(id: u32, rarity: Rarity, override_copies: Option<i32>) -> CardData {
    make_card_with(id, ClassId::Iop, None, rarity, CardType::Minion, override_copies)
}

fn make_card_with(
    id: u32,
    class: ClassId,
    family: Option<&str>,
    rarity: Rarity,
    card_type: CardType,
    override_copies: Option<i32>,
) -> CardData {
    CardData {
        id: CardId(id),
        name_fr: format!("Carte {id}"),
        name_en: format!("Card {id}"),
        class,
        family: family.map(String::from),
        rarity,
        card_type,
        cost: 1,
        atk: 1,
        hp: 1,
        mp: 1,
        ar: 0,
        pool_copies_override: override_copies,
    }
}

fn make_catalog(cards: Vec<CardData>) -> CardCatalog {
    let mut catalog = CardCatalog::new();
    for card in cards {
        catalog.insert(card);
    }
    catalog
}

fn default_config() -> GameConfig {
    GameConfig {
        starting_gold: 10,
        mana_cap: 10,
        mana_cap_max: 12,
        gold_baseline_per_round: 5,
        interest_threshold_gold: 10,
        interest_max_bonus: 5,
        common_pool_copies: 6,
        uncommon_pool_copies: 5,
        rare_pool_copies: 4,
        refresh_base_cost: 1,
        refresh_cap: 3,
        bid_increments: [1, 2, 5],
        draft_initial_timer_seconds: 45,
        draft_shop_timer_seconds: 60,
        placement_timer_seconds: 60,
        auction_followup_placement_timer_seconds: 90,
        resolution_max_duration_seconds: 120,
        disconnect_grace_seconds: 30,
    }
}

#[test]
fn test_pool_initialize_catalog_length() {
    let catalog = make_catalog(vec![
        make_card(1, Rarity::Common, None),
        make_card(2, Rarity::Uncommon, None),
        make_card(3, Rarity::Rare, None),
        make_card(4, Rarity::Epic, None),
        make_card(5, Rarity::Legendary, None),
    ]);
    let pool = PlayerPool::initialize(&catalog, &default_config());
    assert_eq!(pool.copies_remaining.len(), 5);
    assert_eq!(pool.initial_count.len(), 5);
}

#[test]
fn test_pool_initialize_empty_catalog_no_panic() {
    let catalog = CardCatalog::new();
    let pool = PlayerPool::initialize(&catalog, &default_config());
    assert_eq!(pool.copies_remaining.len(), 0);
    assert_eq!(pool.initial_count.len(), 0);
}

#[test]
fn test_pool_initialize_all_cards_have_copies() {
    let catalog = make_catalog(vec![
        make_card(1, Rarity::Common, None),
        make_card(2, Rarity::Uncommon, None),
        make_card(3, Rarity::Rare, None),
        make_card(4, Rarity::Epic, None),
        make_card(5, Rarity::Legendary, None),
    ]);
    let pool = PlayerPool::initialize(&catalog, &default_config());
    assert_eq!(pool.copies_remaining(CardId(1)), 6);
    assert_eq!(pool.copies_remaining(CardId(2)), 5);
    assert_eq!(pool.copies_remaining(CardId(3)), 4);
    assert_eq!(pool.copies_remaining(CardId(4)), 1);
    assert_eq!(pool.copies_remaining(CardId(5)), 1);
    for id in [1u32, 2, 3, 4, 5] {
        assert!(pool.copies_remaining(CardId(id)) >= 1, "card {id} must have >= 1 copy");
    }
}

#[test]
fn test_pool_soft_error_override_zero_no_panic_uses_rarity_default() {
    let catalog = make_catalog(vec![make_card(1, Rarity::Rare, Some(0))]);
    let pool = PlayerPool::initialize(&catalog, &default_config());
    assert_eq!(pool.copies_remaining(CardId(1)), 4);
}

#[test]
fn test_pool_soft_error_override_negative_no_panic_uses_rarity_default() {
    let catalog = make_catalog(vec![make_card(1, Rarity::Rare, Some(-3))]);
    let pool = PlayerPool::initialize(&catalog, &default_config());
    assert_eq!(pool.copies_remaining(CardId(1)), 4);
}

#[test]
fn test_pool_soft_error_override_i32_min_no_panic() {
    let catalog = make_catalog(vec![make_card(1, Rarity::Common, Some(i32::MIN))]);
    let pool = PlayerPool::initialize(&catalog, &default_config());
    assert_eq!(pool.copies_remaining(CardId(1)), 6);
}

#[test]
fn test_pool_rare_no_override_gets_rarity_default() {
    let catalog = make_catalog(vec![make_card(1, Rarity::Rare, None)]);
    let pool = PlayerPool::initialize(&catalog, &default_config());
    assert_eq!(pool.copies_remaining(CardId(1)), 4);
}

#[test]
fn test_pool_rare_no_override_respects_config_value() {
    let catalog = make_catalog(vec![make_card(1, Rarity::Rare, None)]);
    let mut config = default_config();
    config.rare_pool_copies = 1;
    let pool = PlayerPool::initialize(&catalog, &config);
    assert_eq!(pool.copies_remaining(CardId(1)), 1);
}

#[test]
fn test_pool_distribute_decrements_correctly() {
    let catalog = make_catalog(vec![make_card(1, Rarity::Rare, None)]);
    let mut pool = PlayerPool::initialize(&catalog, &default_config());
    assert_eq!(pool.distribute(CardId(1)), Ok(()));
    assert_eq!(pool.copies_remaining(CardId(1)), 3);
}

#[test]
fn test_pool_distribute_four_times_sequence() {
    let catalog = make_catalog(vec![make_card(1, Rarity::Rare, None)]);
    let mut pool = PlayerPool::initialize(&catalog, &default_config());
    for expected_after in (0u32..4).rev() {
        assert_eq!(pool.distribute(CardId(1)), Ok(()));
        assert_eq!(pool.copies_remaining(CardId(1)), expected_after);
    }
}

#[test]
fn test_pool_positive_override_applied() {
    let catalog = make_catalog(vec![make_card(1, Rarity::Rare, Some(2))]);
    let pool = PlayerPool::initialize(&catalog, &default_config());
    assert_eq!(pool.copies_remaining(CardId(1)), 2);
}

#[test]
fn test_pool_positive_override_one_minimum() {
    let catalog = make_catalog(vec![make_card(1, Rarity::Common, Some(1))]);
    let pool = PlayerPool::initialize(&catalog, &default_config());
    assert_eq!(pool.copies_remaining(CardId(1)), 1);
}

#[test]
fn test_pool_distribute_exhausted_error() {
    let catalog = make_catalog(vec![make_card(1, Rarity::Rare, Some(1))]);
    let mut pool = PlayerPool::initialize(&catalog, &default_config());
    pool.distribute(CardId(1)).unwrap();
    assert_eq!(pool.copies_remaining(CardId(1)), 0);
    let result = pool.distribute(CardId(1));
    assert_eq!(result, Err(DistributeError::Exhausted));
    assert_eq!(pool.copies_remaining(CardId(1)), 0);
}

#[test]
fn test_pool_distribute_exhausted_repeatedly_stays_exhausted() {
    let catalog = make_catalog(vec![make_card(1, Rarity::Common, Some(1))]);
    let mut pool = PlayerPool::initialize(&catalog, &default_config());
    pool.distribute(CardId(1)).unwrap();
    assert_eq!(pool.distribute(CardId(1)), Err(DistributeError::Exhausted));
    assert_eq!(pool.distribute(CardId(1)), Err(DistributeError::Exhausted));
    assert_eq!(pool.copies_remaining(CardId(1)), 0);
}

#[test]
fn test_pool_is_available_false_at_zero() {
    let catalog = make_catalog(vec![make_card(1, Rarity::Rare, Some(1))]);
    let mut pool = PlayerPool::initialize(&catalog, &default_config());
    pool.distribute(CardId(1)).unwrap();
    assert!(!pool.is_available(CardId(1)));
}

#[test]
fn test_pool_is_available_false_for_unknown_card() {
    let catalog = make_catalog(vec![make_card(1, Rarity::Common, None)]);
    let pool = PlayerPool::initialize(&catalog, &default_config());
    assert!(!pool.is_available(CardId(999)));
}

#[test]
fn test_pool_is_available_true_above_zero() {
    let catalog = make_catalog(vec![make_card(1, Rarity::Common, None)]);
    let pool = PlayerPool::initialize(&catalog, &default_config());
    assert!(pool.is_available(CardId(1)));
}

#[test]
fn test_pool_is_available_true_at_one_copy_remaining() {
    let catalog = make_catalog(vec![make_card(1, Rarity::Rare, Some(1))]);
    let pool = PlayerPool::initialize(&catalog, &default_config());
    assert!(pool.is_available(CardId(1)));
}

#[test]
fn test_pool_initial_count_immutable_total_acquired_correct() {
    let catalog = make_catalog(vec![make_card(1, Rarity::Rare, None)]);
    let mut pool = PlayerPool::initialize(&catalog, &default_config());
    let initial = *pool.initial_count.get(&1).unwrap();
    assert_eq!(initial, 4);
    pool.distribute(CardId(1)).unwrap();
    pool.distribute(CardId(1)).unwrap();
    pool.distribute(CardId(1)).unwrap();
    assert_eq!(*pool.initial_count.get(&1).unwrap(), 4);
    assert_eq!(pool.copies_remaining(CardId(1)), 1);
    assert_eq!(pool.total_acquired(CardId(1)), 3);
}

#[test]
fn test_pool_total_acquired_zero_before_any_distribute() {
    let catalog = make_catalog(vec![make_card(1, Rarity::Rare, None)]);
    let pool = PlayerPool::initialize(&catalog, &default_config());
    assert_eq!(pool.total_acquired(CardId(1)), 0);
}

#[test]
fn test_pool_total_acquired_equals_n_when_all_distributed() {
    let catalog = make_catalog(vec![make_card(1, Rarity::Rare, Some(2))]);
    let mut pool = PlayerPool::initialize(&catalog, &default_config());
    pool.distribute(CardId(1)).unwrap();
    pool.distribute(CardId(1)).unwrap();
    assert_eq!(pool.total_acquired(CardId(1)), 2);
    assert_eq!(pool.copies_remaining(CardId(1)), 0);
}

#[test]
fn test_draw_auction_card_exhausted_returns_none() {
    let catalog = make_catalog(vec![
        make_card_with(1, ClassId::Neutral, Some("Gobball"), Rarity::Rare, CardType::Minion, Some(1)),
        make_card_with(2, ClassId::Neutral, Some("Tofu"), Rarity::Legendary, CardType::Minion, Some(1)),
        make_card_with(3, ClassId::Neutral, Some("Piwi"), Rarity::Common, CardType::Minion, Some(1)),
        make_card_with(4, ClassId::Neutral, Some("Wabbit"), Rarity::Epic, CardType::Minion, Some(1)),
        make_card_with(5, ClassId::Iop, None, Rarity::Rare, CardType::Minion, Some(1)),
    ]);
    let mut pool = PlayerPool::initialize(&catalog, &default_config());
    pool.distribute(CardId(1)).unwrap();
    pool.distribute(CardId(2)).unwrap();
    assert_eq!(PlayerPool::draw_auction_card(&pool, &catalog, 42), None);
}

#[test]
fn test_draw_random_exhausted_filter_returns_none() {
    let catalog = make_catalog(vec![
        make_card_with(1, ClassId::Neutral, Some("Tofu"), Rarity::Legendary, CardType::Minion, Some(1)),
        make_card_with(2, ClassId::Neutral, Some("Gobball"), Rarity::Rare, CardType::Minion, Some(1)),
    ]);
    let mut pool = PlayerPool::initialize(&catalog, &default_config());
    pool.distribute(CardId(1)).unwrap();
    let before = pool.copies_remaining.clone();
    let filter = PoolFilter {
        class: Some(ClassId::Neutral),
        rarity: Some(vec![Rarity::Legendary]),
        ..Default::default()
    };
    assert_eq!(pool.draw_random(&catalog, &filter, 42), None);
    assert_eq!(pool.copies_remaining, before);
}

#[test]
fn test_draw_initial_draft_9_distinct_ids() {
    let catalog = make_catalog(
        (1..=15)
            .map(|id| make_card_with(id, ClassId::Iop, None, Rarity::Common, CardType::Minion, None))
            .chain((100..105).map(|id| {
                make_card_with(id, ClassId::Neutral, Some("Gobball"), Rarity::Common, CardType::Minion, None)
            }))
            .collect(),
    );
    let pool = PlayerPool::initialize(&catalog, &default_config());
    let draft = pool.draw_initial_draft(&catalog, ClassId::Iop, 9, 42);
    let distinct: HashSet<CardId> = draft.iter().copied().collect();
    assert_eq!(draft.len(), 9);
    assert_eq!(distinct.len(), 9);
}

#[test]
fn test_draw_initial_draft_class_and_neutral_only() {
    let catalog = make_catalog(
        (1..=9)
            .map(|id| make_card_with(id, ClassId::Iop, None, Rarity::Common, CardType::Minion, None))
            .chain((100..109).map(|id| {
                make_card_with(id, ClassId::Neutral, Some("Gobball"), Rarity::Common, CardType::Minion, None)
            }))
            .chain((200..209).map(|id| make_card_with(id, ClassId::Cra, None, Rarity::Common, CardType::Minion, None)))
            .collect(),
    );
    let pool = PlayerPool::initialize(&catalog, &default_config());
    let draft = pool.draw_initial_draft(&catalog, ClassId::Iop, 9, 42);
    assert_eq!(draft.len(), 9);
    for id in draft {
        let card = catalog.get(id).expect("draft id must exist");
        assert!(matches!(card.class, ClassId::Iop | ClassId::Neutral));
    }
}

#[test]
fn test_draw_initial_draft_does_not_call_distribute() {
    let catalog = make_catalog(
        (1..=10).map(|id| make_card_with(id, ClassId::Iop, None, Rarity::Common, CardType::Minion, None)).collect(),
    );
    let pool = PlayerPool::initialize(&catalog, &default_config());
    let before = pool.copies_remaining.clone();
    let draft = pool.draw_initial_draft(&catalog, ClassId::Iop, 9, 42);
    assert_eq!(draft.len(), 9);
    assert_eq!(pool.copies_remaining, before);
}

#[test]
fn test_manual_refresh_count_reset_on_draft_entry() {
    let mut counts = ManualRefreshCount(std::collections::HashMap::from([(1u64, 3u32)]));
    counts.reset_for_player(PlayerId(1));
    assert_eq!(counts.0[&1], 0);
}

#[test]
fn test_manual_refresh_count_reset_inserts_missing_player() {
    let mut counts = ManualRefreshCount(std::collections::HashMap::new());
    counts.reset_for_player(PlayerId(7));
    assert_eq!(counts.0[&7], 0);
}

#[test]
fn test_manual_refresh_count_reset_only_targets_one_player() {
    let mut counts = ManualRefreshCount(std::collections::HashMap::from([(1u64, 3u32), (2u64, 2u32)]));
    counts.reset_for_player(PlayerId(1));
    assert_eq!(counts.0[&1], 0);
    assert_eq!(counts.0[&2], 2);
}

// Further cases.

#[test]
fn class_candidates_exclude_exhausted_and_other_classes() {
    let catalog = make_catalog(vec![
        make_card_with(3, ClassId::Iop, None, Rarity::Common, CardType::Minion, Some(1)),
        make_card_with(1, ClassId::Iop, None, Rarity::Common, CardType::Minion, Some(1)),
        make_card_with(2, ClassId::Cra, None, Rarity::Common, CardType::Minion, Some(1)),
        make_card_with(4, ClassId::Iop, None, Rarity::Common, CardType::Minion, Some(1)),
    ]);
    let mut pool = PlayerPool::initialize(&catalog, &default_config());
    pool.distribute(CardId(4)).unwrap();
    assert_eq!(pool.class_draw_candidates(&catalog, ClassId::Iop), vec![CardId(1), CardId(3)]);
    pool.distribute(CardId(1)).unwrap();
    pool.distribute(CardId(3)).unwrap();
    assert!(pool.class_draw_candidates(&catalog, ClassId::Iop).is_empty());
}

#[test]
fn refresh_candidates_skip_drawn_cards() {
    let catalog = make_catalog((1..=4).map(|id| make_card(id, Rarity::Common, Some(2))).collect());
    let pool = PlayerPool::initialize(&catalog, &default_config());
    let drawn = vec![CardId(2), CardId(4)];
    assert_eq!(pool.refresh_candidates(&catalog, &drawn), vec![CardId(1), CardId(3)]);
}

#[test]
fn acquired_counts_follow_distribution() {
    let catalog = make_catalog((1..=3).map(|id| make_card(id, Rarity::Common, Some(3))).collect());
    let mut pool = PlayerPool::initialize(&catalog, &default_config());
    pool.distribute(CardId(2)).unwrap();
    pool.distribute(CardId(2)).unwrap();
    pool.distribute(CardId(3)).unwrap();
    assert_eq!(pool.acquired_counts(&vec![CardId(1), CardId(2), CardId(3), CardId(9)]), vec![0, 2, 1, 0]);
    assert_eq!(pool.family_acquired_total(&vec![CardId(1), CardId(2), CardId(3)]), Some(3));
}

#[test]
fn family_card_draw_picks_available_neutral_member() {
    let catalog = make_catalog(vec![
        make_card_with(1, ClassId::Neutral, Some("Gobball"), Rarity::Common, CardType::Minion, Some(2)),
        make_card_with(2, ClassId::Neutral, Some("Gobball"), Rarity::Common, CardType::Minion, Some(1)),
        make_card_with(3, ClassId::Neutral, Some("Gobball"), Rarity::Common, CardType::Minion, Some(2)),
    ]);
    let mut pool = PlayerPool::initialize(&catalog, &default_config());
    pool.distribute(CardId(2)).unwrap();
    let families = FamilyIndex { entries: vec![("Gobball".to_string(), vec![CardId(1), CardId(2), CardId(3)])] };
    assert!(pool.family_has_available_neutral(&catalog, &families.entries[0].1));
    for seed in 0..20 {
        let id = pool.draw_family_card(&"Gobball".to_string(), &catalog, &families, seed).expect("member");
        assert!(id == CardId(1) || id == CardId(3));
    }
    assert_eq!(pool.draw_family_card(&"Tofu".to_string(), &catalog, &families, 0), None);
}

#[test]
fn draw_random_respects_filter_and_availability() {
    let catalog = make_catalog(vec![
        make_card_with(1, ClassId::Neutral, None, Rarity::Legendary, CardType::Minion, Some(1)),
        make_card_with(2, ClassId::Neutral, None, Rarity::Rare, CardType::Spell, Some(1)),
        make_card_with(3, ClassId::Iop, None, Rarity::Rare, CardType::Minion, Some(1)),
    ]);
    let pool = PlayerPool::initialize(&catalog, &default_config());
    let filter = PoolFilter { card_type: Some(CardType::Spell), ..Default::default() };
    for seed in 0..10 {
        assert_eq!(pool.draw_random(&catalog, &filter, seed), Some(CardId(2)));
    }
    let cheap = PoolFilter { max_cost: Some(0), ..Default::default() };
    assert_eq!(pool.draw_random(&catalog, &cheap, 1), None);
}

#[test]
fn draft_shorter_than_count_takes_all_candidates() {
    let catalog = make_catalog((1..=4).map(|id| make_card(id, Rarity::Common, None)).collect());
    let pool = PlayerPool::initialize(&catalog, &default_config());
    let draft = pool.draw_initial_draft(&catalog, ClassId::Iop, 9, 7);
    let distinct: HashSet<CardId> = draft.iter().copied().collect();
    assert_eq!(draft.len(), 4);
    assert_eq!(distinct.len(), 4);
}

#[test]
fn catalog_insert_replaces_same_id() {
    let mut catalog = make_catalog(vec![make_card(5, Rarity::Common, None), make_card(2, Rarity::Rare, None)]);
    catalog.insert(make_card(5, Rarity::Epic, None));
    assert_eq!(catalog.len(), 2);
    assert_eq!(catalog.get(CardId(5)).unwrap().rarity, Rarity::Epic);
    assert_eq!(catalog.entry(0).id, CardId(2));
    assert!(!catalog.contains_key(CardId(7)));
}

// Weight tuning of the default configuration.
const SHOP_WEIGHT_PER_CARD: f32 = 0.1;
const SHOP_WEIGHT_CAP: f32 = 0.65;

/// Shop weights over the candidates' acquired counts and a cumulative
/// pick with a seeded draw in [0, 1).
fn weighted_pick(counts: &[u32], seed: u64) -> Option<usize> {
    if counts.is_empty() {
        return None;
    }
    let base = 1.0_f32 / counts.len() as f32;
    let raw: Vec<f32> = counts
        .iter()
        .map(|a| (base + SHOP_WEIGHT_PER_CARD * *a as f32).clamp(0.0, SHOP_WEIGHT_CAP))
        .collect();
    let total: f32 = raw.iter().sum();
    let normalized: Vec<f32> = if total <= 0.0 { vec![0.0; raw.len()] } else { raw.iter().map(|w| w / total).collect() };
    let mut rng = rand_chacha::ChaCha8Rng::seed_from_u64(seed);
    let draw = rng.gen_range(0.0_f32..1.0_f32);
    let mut cumulative = 0.0_f32;
    for (index, weight) in normalized.iter().enumerate() {
        cumulative += *weight;
        if draw <= cumulative {
            return Some(index);
        }
    }
    Some(normalized.len() - 1)
}

fn slot_selector(base_seed: u64) -> impl Fn(Vec<u32>, usize) -> Option<usize> {
    move |counts: Vec<u32>, slot: usize| weighted_pick(&counts, base_seed.wrapping_mul(31).wrapping_add(slot as u64))
}

#[test]
fn test_draw_class_card_all_exhausted_returns_none() {
    let catalog = make_catalog(vec![
        make_card_with(1, ClassId::Iop, None, Rarity::Common, CardType::Minion, Some(1)),
        make_card_with(2, ClassId::Iop, None, Rarity::Common, CardType::Minion, Some(1)),
        make_card_with(3, ClassId::Neutral, Some("Gobball"), Rarity::Common, CardType::Minion, Some(1)),
    ]);
    let mut pool = PlayerPool::initialize(&catalog, &default_config());
    pool.distribute(CardId(1)).unwrap();
    pool.distribute(CardId(2)).unwrap();

    for seed in 0..100 {
        assert_eq!(pool.draw_class_card(&catalog, ClassId::Iop, |c: Vec<u32>| weighted_pick(&c, seed)), None);
    }
}

#[test]
fn test_draw_class_card_returns_correct_class() {
    let mut cards: Vec<CardData> =
        (1..=5).map(|id| make_card_with(id, ClassId::Iop, None, Rarity::Common, CardType::Minion, None)).collect();
    cards.push(make_card_with(100, ClassId::Neutral, Some("Gobball"), Rarity::Common, CardType::Minion, None));
    let catalog = make_catalog(cards);
    let pool = PlayerPool::initialize(&catalog, &default_config());

    for seed in 0..20 {
        let id = pool
            .draw_class_card(&catalog, ClassId::Iop, |c: Vec<u32>| weighted_pick(&c, seed))
            .expect("eligible Iop card should be drawn");
        let card = catalog.get(id).expect("drawn id must exist in catalog");
        assert_eq!(card.class, ClassId::Iop);
        assert!(pool.copies_remaining(id) >= 1);
    }
}

#[test]
fn test_draw_neutral_family_then_draw_family_card() {
    let catalog = make_catalog(vec![
        make_card_with(1, ClassId::Neutral, Some("Gobball"), Rarity::Common, CardType::Minion, Some(2)),
        make_card_with(2, ClassId::Neutral, Some("Gobball"), Rarity::Common, CardType::Minion, Some(2)),
        make_card_with(3, ClassId::Neutral, Some("Gobball"), Rarity::Common, CardType::Minion, Some(2)),
    ]);
    let pool = PlayerPool::initialize(&catalog, &default_config());
    let families = FamilyIndex { entries: vec![("Gobball".to_string(), vec![CardId(1), CardId(2), CardId(3)])] };

    let family = pool
        .draw_neutral_family(&catalog, &families, |c: Vec<u32>| weighted_pick(&c, 1))
        .expect("Gobball family should be eligible");
    assert_eq!(family, "Gobball");
    let card_id = pool.draw_family_card(&family, &catalog, &families, 2).expect("Gobball card should be drawable");
    let card = catalog.get(card_id).expect("drawn id must exist in catalog");
    assert_eq!(card.class, ClassId::Neutral);
    assert_eq!(card.family.as_deref(), Some("Gobball"));
    assert!(pool.copies_remaining(card_id) >= 1);
}

#[test]
fn test_refresh_shop_3_slots_full() {
    let catalog = make_catalog(
        (1..=10).map(|id| make_card_with(id, ClassId::Iop, None, Rarity::Common, CardType::Minion, Some(2))).collect(),
    );
    let mut pool = PlayerPool::initialize(&catalog, &default_config());
    let before = pool.copies_remaining.clone();
    let families = FamilyIndex { entries: vec![] };

    let slots = refresh_shop(&mut pool, &catalog, &families, 3, slot_selector(3));
    let distinct: HashSet<CardId> = slots.iter().copied().collect();

    assert_eq!(slots.len(), 3);
    assert_eq!(distinct.len(), 3);
    for id in slots {
        assert!(before.get(&id.0).copied().unwrap_or(0) >= 1);
        assert_eq!(pool.copies_remaining(id), before[&id.0] - 1);
    }
}

#[test]
fn test_refresh_shop_9_slots_initial_draft() {
    let catalog = make_catalog(
        (1..=15).map(|id| make_card_with(id, ClassId::Iop, None, Rarity::Common, CardType::Minion, Some(2))).collect(),
    );
    let mut pool = PlayerPool::initialize(&catalog, &default_config());
    let before = pool.copies_remaining.clone();
    let families = FamilyIndex { entries: vec![] };

    let slots = refresh_shop(&mut pool, &catalog, &families, 9, slot_selector(9));
    let distinct: HashSet<CardId> = slots.iter().copied().collect();

    assert_eq!(slots.len(), 9);
    assert_eq!(distinct.len(), 9);
    for id in slots {
        assert_eq!(pool.copies_remaining(id), before[&id.0] - 1);
    }
}

#[test]
fn test_refresh_shop_partial_fill() {
    let catalog = make_catalog(
        (1..=5).map(|id| make_card_with(id, ClassId::Iop, None, Rarity::Common, CardType::Minion, Some(1))).collect(),
    );
    let mut pool = PlayerPool::initialize(&catalog, &default_config());
    for id in [CardId(3), CardId(4), CardId(5)] {
        pool.distribute(id).unwrap();
    }
    let families = FamilyIndex { entries: vec![] };

    let slots = refresh_shop(&mut pool, &catalog, &families, 3, slot_selector(2));

    assert_eq!(slots.len(), 2);
    for id in slots {
        assert_eq!(pool.copies_remaining(id), 0);
    }
}

#[test]
fn test_refresh_shop_fully_exhausted_returns_empty() {
    let catalog = make_catalog(
        (1..=3).map(|id| make_card_with(id, ClassId::Iop, None, Rarity::Common, CardType::Minion, Some(1))).collect(),
    );
    let mut pool = PlayerPool::initialize(&catalog, &default_config());
    for id in [CardId(1), CardId(2), CardId(3)] {
        pool.distribute(id).unwrap();
    }
    let before = pool.copies_remaining.clone();
    let families = FamilyIndex { entries: vec![] };

    let slots = refresh_shop(&mut pool, &catalog, &families, 3, slot_selector(0));

    assert!(slots.is_empty());
    assert_eq!(pool.copies_remaining, before);
}

#[test]
fn refresh_stops_when_the_selector_declines() {
    let catalog = make_catalog(
        (1..=4).map(|id| make_card_with(id, ClassId::Iop, None, Rarity::Common, CardType::Minion, Some(1))).collect(),
    );
    let mut pool = PlayerPool::initialize(&catalog, &default_config());
    let families = FamilyIndex { entries: vec![] };
    // Always the last candidate on the first two slots, then decline.
    let slots = refresh_shop(&mut pool, &catalog, &families, 4, |c: Vec<u32>, slot: usize| {
        if slot < 2 { Some(c.len() - 1) } else { None }
    });
    assert_eq!(slots, vec![CardId(4), CardId(3)]);
    assert_eq!(pool.copies_remaining(CardId(4)), 0);
    assert_eq!(pool.copies_remaining(CardId(3)), 0);
    assert_eq!(pool.copies_remaining(CardId(1)), 1);
}

#[test]
fn class_draw_hands_acquired_counts_in_id_order() {
    let catalog = make_catalog(vec![
        make_card_with(7, ClassId::Iop, None, Rarity::Common, CardType::Minion, Some(3)),
        make_card_with(2, ClassId::Iop, None, Rarity::Common, CardType::Minion, Some(3)),
        make_card_with(5, ClassId::Cra, None, Rarity::Common, CardType::Minion, Some(3)),
    ]);
    let mut pool = PlayerPool::initialize(&catalog, &default_config());
    pool.distribute(CardId(7)).unwrap();
    pool.distribute(CardId(7)).unwrap();
    let seen = std::cell::RefCell::new(Vec::new());
    let drawn = pool.draw_class_card(&catalog, ClassId::Iop, |c: Vec<u32>| {
        *seen.borrow_mut() = c.clone();
        Some(1)
    });
    assert_eq!(*seen.borrow(), vec![0, 2]);
    assert_eq!(drawn, Some(CardId(7)));
    assert_eq!(pool.draw_class_card(&catalog, ClassId::Iop, |_c: Vec<u32>| Some(2)), None);
}

#[test]
fn neutral_families_are_ordered_by_name_with_summed_counts() {
    let catalog = make_catalog(vec![
        make_card_with(1, ClassId::Neutral, Some("Tofu"), Rarity::Common, CardType::Minion, Some(2)),
        make_card_with(2, ClassId::Neutral, Some("Gobball"), Rarity::Common, CardType::Minion, Some(2)),
        make_card_with(3, ClassId::Neutral, Some("Gobball"), Rarity::Common, CardType::Minion, Some(2)),
        make_card_with(4, ClassId::Neutral, Some("Piwi"), Rarity::Common, CardType::Minion, Some(1)),
    ]);
    let mut pool = PlayerPool::initialize(&catalog, &default_config());
    pool.distribute(CardId(2)).unwrap();
    pool.distribute(CardId(3)).unwrap();
    pool.distribute(CardId(4)).unwrap();
    let families = FamilyIndex {
        entries: vec![
            ("Tofu".to_string(), vec![CardId(1)]),
            ("Piwi".to_string(), vec![CardId(4)]),
            ("Gobball".to_string(), vec![CardId(2), CardId(3)]),
        ],
    };
    let seen = std::cell::RefCell::new(Vec::new());
    let first = pool.draw_neutral_family(&catalog, &families, |c: Vec<u32>| {
        *seen.borrow_mut() = c.clone();
        Some(0)
    });
    // Piwi is exhausted; Gobball sorts before Tofu.
    assert_eq!(*seen.borrow(), vec![2, 0]);
    assert_eq!(first, Some("Gobball".to_string()));
    assert_eq!(pool.draw_neutral_family(&catalog, &families, |_c: Vec<u32>| Some(1)), Some("Tofu".to_string()));
    assert_eq!(pool.draw_neutral_family(&catalog, &families, |_c: Vec<u32>| None), None);
}

#[test]
fn initial_draft_is_shuffled_by_the_seed() {
    let catalog = make_catalog(
        (1..=15).map(|id| make_card_with(id, ClassId::Iop, None, Rarity::Common, CardType::Minion, None)).collect(),
    );
    let pool = PlayerPool::initialize(&catalog, &default_config());
    let ascending: Vec<CardId> = (1..=9).map(CardId).collect();
    let drafts: Vec<Vec<CardId>> = (0..10).map(|seed| pool.draw_initial_draft(&catalog, ClassId::Iop, 9, seed)).collect();
    assert!(drafts.iter().any(|d| *d != ascending));
    assert_eq!(pool.draw_initial_draft(&catalog, ClassId::Iop, 9, 7), pool.draw_initial_draft(&catalog, ClassId::Iop, 9, 7));
}

#[test]
fn uniform_draws_reach_more_than_one_candidate() {
    let catalog = make_catalog(
        (1..=6).map(|id| make_card_with(id, ClassId::Iop, None, Rarity::Common, CardType::Minion, None)).collect(),
    );
    let pool = PlayerPool::initialize(&catalog, &default_config());
    let filter = PoolFilter::default();
    let drawn: HashSet<CardId> = (0..40).filter_map(|seed| pool.draw_random(&catalog, &filter, seed)).collect();
    assert!(drawn.len() > 1);
    assert!(drawn.iter().all(|id| (1..=6).contains(&id.0)));
}

#[test]
fn refresh_fills_the_three_display_slots() {
    let catalog = make_catalog(
        (1..=5).map(|id| make_card_with(id, ClassId::Iop, None, Rarity::Common, CardType::Minion, Some(1))).collect(),
    );
    let mut pool = PlayerPool::initialize(&catalog, &default_config());
    let families = FamilyIndex { entries: vec![] };
    let slots = refresh_shop(&mut pool, &catalog, &families, 3, |_c: Vec<u32>, _slot: usize| Some(0));
    assert_eq!(slots, vec![CardId(1), CardId(2), CardId(3)]);
    assert_eq!(pool.shop_slots, vec![Some(CardId(1)), Some(CardId(2)), Some(CardId(3))]);

    for id in [CardId(4)] {
        pool.distribute(id).unwrap();
    }
    let slots = refresh_shop(&mut pool, &catalog, &families, 3, |_c: Vec<u32>, _slot: usize| Some(0));
    assert_eq!(slots, vec![CardId(5)]);
    assert_eq!(pool.shop_slots, vec![Some(CardId(5)), None, None]);
}
