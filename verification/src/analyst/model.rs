use vstd::prelude::*;

verus! {

pub struct ProductScore {
    pub potential: u64,
    pub popular: u64,
}

/// Products by rating: how many have a rating in `[1, 2)`, `[2, 3)`, `[3, 4)`, `[4, 5)`,
/// exactly 5, and how many have none of these.
#[derive(Debug)]
pub struct ProductRatingModel {
    pub count_1_2: u64,
    pub count_2_3: u64,
    pub count_3_4: u64,
    pub count_4_5: u64,
    pub count_5: u64,
    pub unknown_count: u64,
}

/// Products by number of orders, and how many have no known number.
#[derive(Debug)]
pub struct ProductOrdersModel {
    pub count_0: u64,
    pub count_1_9: u64,
    pub count_10_19: u64,
    pub count_20_49: u64,
    pub count_50_99: u64,
    pub count_100_499: u64,
    pub count_500_999: u64,
    pub count_1000_9999: u64,
    pub count_10000_n: u64,
    pub unknown_count: u64,
}

/// Products by price.
#[derive(Debug)]
pub struct ProductPriceModel {
    pub count_0_1: u64,
    pub count_1_5: u64,
    pub count_5_10: u64,
    pub count_10_20: u64,
    pub count_20_30: u64,
    pub count_30_50: u64,
    pub count_50_100: u64,
    pub count_100_1000: u64,
    pub count_1000_n: u64,
}

/// Products by shipping fee, and how many have no known fee.
#[derive(Debug)]
pub struct ShippingFeeModel {
    pub count_0: u64,
    pub count_0_1: u64,
    pub count_1_5: u64,
    pub count_5_10: u64,
    pub count_10_20: u64,
    pub count_20_30: u64,
    pub count_30_50: u64,
    pub count_50_100: u64,
    pub count_100_n: u64,
    pub unknown_count: u64,
}

/// How many products, stores and categories the database holds.
#[derive(Debug)]
pub struct DatabaseSummaryModel {
    pub product_count: u64,
    pub store_count: u64,
    pub category_count: u64,
}

impl Clone for DatabaseSummaryModel {
    fn clone(&self) -> (c: Self)
        ensures
            c == *self,
    {
        DatabaseSummaryModel {
            product_count: self.product_count,
            store_count: self.store_count,
            category_count: self.category_count,
        }
    }
}

/// Stores by the percentage of positive ratings, and how many have no known percentage.
pub struct StoreRatingModel {
    pub count_0_10: u64,
    pub count_10_30: u64,
    pub count_30_50: u64,
    pub count_50_80: u64,
    pub count_80_90: u64,
    pub count_90_95: u64,
    pub count_95_96: u64,
    pub count_96_97: u64,
    pub count_97_98: u64,
    pub count_98_99: u64,
    pub count_99_100: u64,
    pub unknown_count: u64,
}

/// Stores by number of positive ratings.
pub struct StorePositiveRatingModel {
    pub count_0_10: u64,
    pub count_10_20: u64,
    pub count_20_30: u64,
    pub count_30_50: u64,
    pub count_50_100: u64,
    pub count_100_500: u64,
    pub count_500_1000: u64,
    pub count_1000_2000: u64,
    pub count_2000_3000: u64,
    pub count_3000_5000: u64,
    pub count_5000_n: u64,
}

/// Stores by number of negative ratings.
pub struct StoreNegativeRatingModel {
    pub count_0_10: u64,
    pub count_10_20: u64,
    pub count_20_30: u64,
    pub count_30_50: u64,
    pub count_50_100: u64,
    pub count_100_500: u64,
    pub count_500_1000: u64,
    pub count_1000_2000: u64,
    pub count_2000_3000: u64,
    pub count_3000_5000: u64,
    pub count_5000_n: u64,
}

/// Stores by number of neutral ratings.
pub struct StoreNeutralRatingModel {
    pub count_0_10: u64,
    pub count_10_20: u64,
    pub count_20_30: u64,
    pub count_30_50: u64,
    pub count_50_100: u64,
    pub count_100_500: u64,
    pub count_500_1000: u64,
    pub count_1000_2000: u64,
    pub count_2000_3000: u64,
    pub count_3000_5000: u64,
    pub count_5000_n: u64,
}

/// Orders by the price of the products ordered.
pub struct OrdersByPriceModel {
    pub price_0_1: u64,
    pub price_1_5: u64,
    pub price_5_10: u64,
    pub price_10_20: u64,
    pub price_20_30: u64,
    pub price_30_50: u64,
    pub price_50_100: u64,
    pub price_100_200: u64,
    pub price_200_500: u64,
    pub price_500_700: u64,
    pub price_700_1000: u64,
    pub price_1000_n: u64,
}

} // verus!
