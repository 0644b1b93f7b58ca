use vstd::prelude::*;
use crate::analyst::model::{
    ProductOrdersModel, ProductRatingModel, ShippingFeeModel, StoreRatingModel,
};

verus! {

/// The distribution of products by rating, from the number of products and the number in
/// each range of ratings: the products in none of the ranges are the unknown ones.
pub fn distribution_products_by_rating(
    total_count: u64,
    count_1_2: u64,
    count_2_3: u64,
    count_3_4: u64,
    count_4_5: u64,
    count_5: u64,
) -> (m: ProductRatingModel)
    requires
        count_1_2 + count_2_3 + count_3_4 + count_4_5 + count_5 <= total_count,
    ensures
        m == (ProductRatingModel {
            count_1_2,
            count_2_3,
            count_3_4,
            count_4_5,
            count_5,
            unknown_count: (total_count - count_1_2 - count_2_3 - count_3_4 - count_4_5 - count_5) as u64,
        }),
        m.unknown_count + m.count_1_2 + m.count_2_3 + m.count_3_4 + m.count_4_5 + m.count_5 == total_count,
{
    let unknown_count = total_count - count_1_2 - count_2_3 - count_3_4 - count_4_5 - count_5;
    ProductRatingModel { count_1_2, count_2_3, count_3_4, count_4_5, count_5, unknown_count }
}

/// The number of products in the ranges of orders that a [`ProductOrdersModel`] counts.
pub open spec fn orders_ranges_sum(
    count_0: u64,
    count_1_9: u64,
    count_10_19: u64,
    count_20_49: u64,
    count_50_99: u64,
    count_100_499: u64,
    count_500_999: u64,
    count_1000_9999: u64,
    count_10000_n: u64,
) -> int {
    count_0 + count_1_9 + count_10_19 + count_20_49 + count_50_99 + count_100_499 + count_500_999
        + count_1000_9999 + count_10000_n
}

/// The distribution of products by orders, from the number of products and the number in
/// each range of orders: the products in none of the ranges are the unknown ones.
pub fn distribution_products_by_orders(
    total_count: u64,
    count_0: u64,
    count_1_9: u64,
    count_10_19: u64,
    count_20_49: u64,
    count_50_99: u64,
    count_100_499: u64,
    count_500_999: u64,
    count_1000_9999: u64,
    count_10000_n: u64,
) -> (m: ProductOrdersModel)
    requires
        orders_ranges_sum(count_0, count_1_9, count_10_19, count_20_49, count_50_99, count_100_499,
            count_500_999, count_1000_9999, count_10000_n) <= total_count,
    ensures
        m == (ProductOrdersModel {
            count_0,
            count_1_9,
            count_10_19,
            count_20_49,
            count_50_99,
            count_100_499,
            count_500_999,
            count_1000_9999,
            count_10000_n,
            unknown_count: (total_count - orders_ranges_sum(count_0, count_1_9, count_10_19,
                count_20_49, count_50_99, count_100_499, count_500_999, count_1000_9999,
                count_10000_n)) as u64,
        }),
{
    let unknown_count = total_count - count_0 - count_1_9 - count_10_19 - count_20_49 - count_50_99
        - count_100_499 - count_500_999 - count_1000_9999 - count_10000_n;
    ProductOrdersModel {
        count_0,
        count_1_9,
        count_10_19,
        count_20_49,
        count_50_99,
        count_100_499,
        count_500_999,
        count_1000_9999,
        count_10000_n,
        unknown_count,
    }
}

/// The number of products that the unknown shipping fees are counted against: every range
/// but `(0, 1]`, which the count leaves out.
pub open spec fn shipping_fee_ranges_sum(
    count_0: u64,
    count_1_5: u64,
    count_5_10: u64,
    count_10_20: u64,
    count_20_30: u64,
    count_30_50: u64,
    count_50_100: u64,
    count_100_n: u64,
) -> int {
    count_0 + count_1_5 + count_5_10 + count_10_20 + count_20_30 + count_30_50 + count_50_100
        + count_100_n
}

/// The distribution of products by shipping fee, from the number of products and the
/// number in each range of fees. The unknown ones are those in none of the ranges but
/// `(0, 1]`: the products of that range are counted among the unknown ones too.
pub fn distribution_products_by_shipping_fee(
    total_count: u64,
    count_0: u64,
    count_0_1: u64,
    count_1_5: u64,
    count_5_10: u64,
    count_10_20: u64,
    count_20_30: u64,
    count_30_50: u64,
    count_50_100: u64,
    count_100_n: u64,
) -> (m: ShippingFeeModel)
    requires
        shipping_fee_ranges_sum(count_0, count_1_5, count_5_10, count_10_20, count_20_30,
            count_30_50, count_50_100, count_100_n) <= total_count,
    ensures
        m == (ShippingFeeModel {
            count_0,
            count_0_1,
            count_1_5,
            count_5_10,
            count_10_20,
            count_20_30,
            count_30_50,
            count_50_100,
            count_100_n,
            unknown_count: (total_count - shipping_fee_ranges_sum(count_0, count_1_5, count_5_10,
                count_10_20, count_20_30, count_30_50, count_50_100, count_100_n)) as u64,
        }),
{
    let unknown_count = total_count - count_0 - count_1_5 - count_5_10 - count_10_20 - count_20_30
        - count_30_50 - count_50_100 - count_100_n;
    ShippingFeeModel {
        count_0,
        count_0_1,
        count_1_5,
        count_5_10,
        count_10_20,
        count_20_30,
        count_30_50,
        count_50_100,
        count_100_n,
        unknown_count,
    }
}

/// The number of stores in the ranges of positive-rating percentages that a
/// [`StoreRatingModel`] counts.
pub open spec fn store_rating_ranges_sum(
    count_0_10: u64,
    count_10_30: u64,
    count_30_50: u64,
    count_50_80: u64,
    count_80_90: u64,
    count_90_95: u64,
    count_95_96: u64,
    count_96_97: u64,
    count_97_98: u64,
    count_98_99: u64,
    count_99_100: u64,
) -> int {
    count_0_10 + count_10_30 + count_30_50 + count_50_80 + count_80_90 + count_90_95 + count_95_96
        + count_96_97 + count_97_98 + count_98_99 + count_99_100
}

/// The distribution of stores by positive-rating percentage, from the number of stores and
/// the number in each range: the stores in none of the ranges are the unknown ones.
pub fn distribution_stores_by_rating(
    total_count: u64,
    count_0_10: u64,
    count_10_30: u64,
    count_30_50: u64,
    count_50_80: u64,
    count_80_90: u64,
    count_90_95: u64,
    count_95_96: u64,
    count_96_97: u64,
    count_97_98: u64,
    count_98_99: u64,
    count_99_100: u64,
) -> (m: StoreRatingModel)
    requires
        store_rating_ranges_sum(count_0_10, count_10_30, count_30_50, count_50_80, count_80_90,
            count_90_95, count_95_96, count_96_97, count_97_98, count_98_99, count_99_100)
            <= total_count,
    ensures
        m == (StoreRatingModel {
            count_0_10,
            count_10_30,
            count_30_50,
            count_50_80,
            count_80_90,
            count_90_95,
            count_95_96,
            count_96_97,
            count_97_98,
            count_98_99,
            count_99_100,
            unknown_count: (total_count - store_rating_ranges_sum(count_0_10, count_10_30,
                count_30_50, count_50_80, count_80_90, count_90_95, count_95_96, count_96_97,
                count_97_98, count_98_99, count_99_100)) as u64,
        }),
{
    let unknown_count = total_count - count_0_10 - count_10_30 - count_30_50 - count_50_80
        - count_80_90 - count_90_95 - count_95_96 - count_96_97 - count_97_98 - count_98_99
        - count_99_100;
    StoreRatingModel {
        count_0_10,
        count_10_30,
        count_30_50,
        count_50_80,
        count_80_90,
        count_90_95,
        count_95_96,
        count_96_97,
        count_97_98,
        count_98_99,
        count_99_100,
        unknown_count,
    }
}

/// The total of orders that a grouping over products answered with: nothing where no
/// product matched or the total is no integer, else the total as an unsigned number.
pub fn orders_from_total(output: Option<i64>) -> (n: u64)
    ensures
        n == match output {
            None => 0,
            Some(v) => v as u64,
        },
{
    match output {
        None => 0,
        Some(v) => v as u64,
    }
}


/// A calendar month: its year and its number, 1 to 12.
#[derive(Debug, Clone, Copy, PartialEq, Eq, Structural)]
pub struct Month {
    pub year: i32,
    pub month: u32,
}

/// The month before `m`.
pub open spec fn month_before(m: Month) -> Month {
    if m.month == 1 {
        Month { year: (m.year - 1) as i32, month: 12 }
    } else {
        Month { year: m.year, month: (m.month - 1) as u32 }
    }
}

/// The month after `m`.
pub open spec fn month_after(m: Month) -> Month {
    if m.month == 12 {
        Month { year: (m.year + 1) as i32, month: 1 }
    } else {
        Month { year: m.year, month: (m.month + 1) as u32 }
    }
}

/// The month `i` months before `m`.
pub open spec fn months_back(m: Month, i: nat) -> Month
    decreases i,
{
    if i == 0 {
        m
    } else {
        month_before(months_back(m, (i - 1) as nat))
    }
}

/// A span of the timeline of stores coming online: from the first day of `from` up to
/// the first day of `to`.
#[derive(Debug, Clone, Copy, PartialEq, Eq, Structural)]
pub struct MonthSpan {
    pub from: Month,
    pub to: Month,
}

proof fn lemma_months_back_year(m: Month, i: nat)
    requires
        1 <= m.month <= 12,
        m.year - i >= i32::MIN + 1,
    ensures
        1 <= months_back(m, i).month <= 12,
        months_back(m, i).year * 12 + months_back(m, i).month == m.year * 12 + m.month - i,
    decreases i,
{
    if i > 0 {
        lemma_months_back_year(m, (i - 1) as nat);
        let p = months_back(m, (i - 1) as nat);
        assert(p.year * 12 + p.month == m.year * 12 + m.month - (i - 1));
        assert(p.year * 12 >= m.year * 12 + m.month - (i - 1) - 12);
        assert(p.year >= m.year - i) by (nonlinear_arith)
            requires
                p.year * 12 >= m.year * 12 + m.month - (i - 1) - 12,
                1 <= m.month <= 12,
                i >= 1,
        ;
    }
}

/// The sixty spans of a month each of the timeline of stores, newest first: the first
/// is the month of `now`, the last the month fifty-nine months before it. `now` must lie
/// where chrono can step a month past it and sixty months before it.
pub fn online_timeline(now: Month) -> (spans: Vec<MonthSpan>)
    requires
        1 <= now.month <= 12,
        -262139 <= now.year,
        now.month < 12 ==> now.year <= 262143,
        now.month == 12 ==> now.year <= 262142,
    ensures
        spans@.len() == 60,
        forall|i: int| 0 <= i < 60 ==> #[trigger] spans@[i] == (MonthSpan {
            from: months_back(month_after(now), (i + 1) as nat),
            to: months_back(month_after(now), i as nat),
        }),
{
    let next = if now.month == 12 { Month { year: now.year + 1, month: 1 } } else { Month { year: now.year, month: now.month + 1 } };
    assert(next == month_after(now));
    let mut spans: Vec<MonthSpan> = Vec::new();
    let mut to = next;
    let mut i: usize = 0;
    while i < 60
        invariant
            i <= 60,
            next == month_after(now),
            -262139 <= now.year <= 262143,
            1 <= next.month <= 12,
            next.year >= now.year,
            to == months_back(next, i as nat),
            spans@.len() == i,
            forall|j: int| 0 <= j < i ==> #[trigger] spans@[j] == (MonthSpan {
                from: months_back(next, (j + 1) as nat),
                to: months_back(next, j as nat),
            }),
        decreases 60 - i,
    {
        proof {
            lemma_months_back_year(next, i as nat);
            let t = months_back(next, i as nat);
            assert(t.year >= next.year - 61) by (nonlinear_arith)
                requires
                    t.year * 12 + t.month == next.year * 12 + next.month - i,
                    1 <= t.month <= 12,
                    1 <= next.month <= 12,
                    i <= 60,
            ;
        }
        let from = if to.month == 1 { Month { year: to.year - 1, month: 12 } } else { Month { year: to.year, month: to.month - 1 } };
        assert(from == months_back(next, (i + 1) as nat));
        spans.push(MonthSpan { from, to });
        to = from;
        i = i + 1;
    }
    spans
}

} // verus!
