//! Plain data types of the HTTP API layer, and pagination arithmetic.

use vstd::prelude::*;

verus! {

/// A user, identified by wallet address.
#[derive(Clone, Debug)]
pub struct User {
    pub wallet: String,
}

/// The payload that opens a new chat.
#[derive(Clone, Copy, Debug, PartialEq, Eq, Structural)]
pub struct ChatCreate {
    pub user_id: i32,
}

/// The payload that links a wallet with a social-media account.
#[derive(Clone, Debug)]
pub struct ConnectTwitter {
    pub wallet_address: String,
    pub twitter_id: String,
}

/// One usage credit earned by sharing a post.
#[derive(Clone, Debug)]
pub struct Credit {
    pub user_id: i32,
    pub twitter_post_id: String,
    pub is_used: bool,
}

/// The message-count answer of the statistics endpoint.
#[derive(Clone, Copy, Debug, PartialEq, Eq, Structural)]
pub struct MessageCountResponse {
    pub total_messages: i32,
}

/// The user-count answer of the statistics endpoint.
#[derive(Clone, Copy, Debug, PartialEq, Eq, Structural)]
pub struct UsersCountResponse {
    pub total_users: i32,
}

/// What a statistics request asks for.
#[derive(Clone, Copy, Debug, PartialEq, Eq, Structural)]
pub enum ShillingStatisticsAction {
    DashboardInfo,
    TotalPaid,
    MaxMinTradePnL,
    Transactions,
    Rejections,
    CurrentBalance,
    Trades,
    AgentBalanceByMinutes,
    AgentBalanceByDay,
    AgentBalanceByWeek,
    AgentBalanceByMonth,
    AgentBalanceByYear,
    TokensApproved,
    Assets,
}

/// The number of pages needed for `total_items` items at `page_size`
/// items per page: the least count of full pages covering all items.
pub open spec fn spec_total_pages(total_items: nat, page_size: nat) -> int {
    (total_items + page_size - 1) / page_size as int
}

/// One page of a listing, with the derived page count.
#[derive(Clone, Debug)]
pub struct PaginatedResponse<T> {
    pub page_size: usize,
    pub page_number: usize,
    pub total_items: usize,
    pub total_pages: usize,
    pub data: Vec<T>,
}

impl<T> PaginatedResponse<T> {
    /// Builds a page, computing the total page count.
    pub fn new_paginated_response(
        page_size: usize,
        page_number: usize,
        total_items: usize,
        data: Vec<T>,
    ) -> (r: PaginatedResponse<T>)
        requires
            page_size > 0,
        ensures
            r.page_size == page_size,
            r.page_number == page_number,
            r.total_items == total_items,
            r.data == data,
            r.total_pages == spec_total_pages(total_items as nat, page_size as nat),
            r.total_pages * page_size >= total_items,
    {
        let q = total_items / page_size;
        let total_pages = if total_items % page_size == 0 {
            q
        } else {
            proof {
                assert(page_size != 1) by (nonlinear_arith)
                    requires
                        total_items as int % page_size as int != 0,
                        page_size > 0,
                ;
                assert(q < usize::MAX) by (nonlinear_arith)
                    requires
                        page_size >= 2,
                        q == total_items as int / page_size as int,
                        total_items <= usize::MAX,
                ;
            }
            q + 1
        };
        proof {
            assert(total_pages == spec_total_pages(total_items as nat, page_size as nat))
                by (nonlinear_arith)
                requires
                    page_size > 0,
                    total_pages == if total_items as int % page_size as int == 0 {
                        total_items as int / page_size as int
                    } else {
                        total_items as int / page_size as int + 1
                    },
            ;
            assert(total_pages * page_size >= total_items) by (nonlinear_arith)
                requires
                    page_size > 0,
                    total_pages == if total_items as int % page_size as int == 0 {
                        total_items as int / page_size as int
                    } else {
                        total_items as int / page_size as int + 1
                    },
            ;
        }
        PaginatedResponse { page_size, page_number, total_items, total_pages, data }
    }
}

} // verus!
