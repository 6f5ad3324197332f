//! The state that the render loop owns: login, the company list and its
//! search, and one view per opened company; and how each event changes it.
use vstd::prelude::*;
use crate::message::{Message, Token};
use crate::search::{filter_stocks, found_stocks, views_of};
use crate::stock::StockResp;
use crate::stock_view::StockView;

verus! {

/// How many companies are drawn at random as popular ones.
pub const POPULAR_COUNT: usize = 6;

/// Index of the last view of the company `symbol`, or -1 when none is open.
pub open spec fn last_view_of(views: Seq<StockView>, symbol: Seq<char>) -> int
    decreases views.len(),
{
    if views.len() == 0 {
        -1
    } else if views.last().stock.symbol@ == symbol {
        views.len() - 1
    } else {
        last_view_of(views.drop_last(), symbol)
    }
}

/// The views whose window is still open, in order.
pub open spec fn open_views(views: Seq<StockView>) -> Seq<StockView>
    decreases views.len(),
{
    if views.len() == 0 {
        views
    } else if views.last().valid {
        open_views(views.drop_last()).push(views.last())
    } else {
        open_views(views.drop_last())
    }
}

/// The popular companies drawn from `list` with the random numbers `draws`:
/// one per draw, up to `POPULAR_COUNT`, the draw taken modulo the length.
pub open spec fn popular_of(
    list: Seq<(Seq<char>, Seq<char>, Seq<char>)>,
    draws: Seq<u32>,
) -> Seq<(Seq<char>, Seq<char>, Seq<char>)> {
    if list.len() == 0 {
        Seq::empty()
    } else {
        let n = if draws.len() < POPULAR_COUNT {
            draws.len() as int
        } else {
            POPULAR_COUNT as int
        };
        Seq::new(n as nat, |k: int| list[draws[k] as int % list.len() as int])
    }
}

/// Draws the popular companies of `list` with the random numbers `draws`.
pub fn pick_popular(list: &Vec<StockResp>, draws: &Vec<u32>) -> (r: Vec<StockResp>)
    ensures
        views_of(r@) == popular_of(views_of(list@), draws@),
{
    let mut r: Vec<StockResp> = Vec::new();
    if list.len() == 0 {
        assert(views_of(r@) =~= popular_of(views_of(list@), draws@));
        return r;
    }
    let n = if draws.len() < POPULAR_COUNT {
        draws.len()
    } else {
        POPULAR_COUNT
    };
    let mut k: usize = 0;
    while k < n
        invariant
            list.len() > 0,
            n <= draws.len(),
            n == (if draws.len() < POPULAR_COUNT {
                draws.len() as int
            } else {
                POPULAR_COUNT as int
            }),
            k <= n,
            views_of(r@) == popular_of(views_of(list@), draws@).take(k as int),
        decreases n - k,
    {
        let i = (draws[k] as usize) % list.len();
        let ghost before = r@;
        r.push(list[i].clone());
        assert(views_of(list@)[i as int] == list@[i as int]@);
        assert(views_of(r@) =~= views_of(before).push(list@[i as int]@));
        k = k + 1;
        assert(views_of(r@) =~= popular_of(views_of(list@), draws@).take(k as int));
    }
    assert(popular_of(views_of(list@), draws@).take(k as int) =~= popular_of(
        views_of(list@),
        draws@,
    ));
    r
}

/// The application state, with `C` the handle to the remote service.
pub struct FinancialAnalysis<C> {
    pub token: Token,
    pub login_done: bool,
    pub login_error: String,
    pub enable_debug_panel: bool,
    pub input_username: String,
    pub input_password: String,
    pub client: Option<C>,
    pub stock_list: Vec<StockResp>,
    pub stock_list_requesting: bool,
    pub stock_list_select: Vec<StockResp>,
    pub stock_list_select_text: String,
    pub search_text: String,
    pub history_views: Vec<StockView>,
    pub stock_list_popular: Vec<StockResp>,
    pub api_host: String,
}

impl<C> Default for FinancialAnalysis<C> {
    /// Logged out, nothing fetched, no handle yet, the debug panel shown, the
    /// first known host selected.
    fn default() -> (r: Self)
        ensures
            r.token@.len() == 0,
            !r.login_done,
            r.login_error@.len() == 0,
            r.enable_debug_panel,
            r.input_username@ == seq!['t', 'e', 's', 't'],
            r.input_password@ == seq!['t', 'e', 's', 't'],
            r.client is None,
            r.stock_list@.len() == 0,
            !r.stock_list_requesting,
            r.stock_list_select@.len() == 0,
            r.stock_list_select_text@.len() == 0,
            r.search_text@.len() == 0,
            r.history_views@.len() == 0,
            r.stock_list_popular@.len() == 0,
            r.api_host@ == seq!['l', 'o', 'c', 'a', 'l', 'h', 'o', 's', 't'],
    {
        proof {
            reveal_strlit("test");
            reveal_strlit("localhost");
        }
        FinancialAnalysis {
            token: String::new(),
            login_done: false,
            login_error: String::new(),
            enable_debug_panel: true,
            input_username: "test".to_owned(),
            input_password: "test".to_owned(),
            client: None,
            stock_list: Vec::new(),
            stock_list_requesting: false,
            stock_list_select: Vec::new(),
            stock_list_select_text: String::new(),
            search_text: String::new(),
            history_views: Vec::new(),
            stock_list_popular: Vec::new(),
            api_host: "localhost".to_owned(),
        }
    }
}

impl<C> FinancialAnalysis<C> {
    /// `new` is `old` after `msg` went to the view of its company: the last
    /// view of that company handles it, the others stay as they were; with no
    /// such view nothing changes.
    pub open spec fn routed(old: Self, new: Self, msg: Message<C>) -> bool {
        let views = old.history_views@;
        let i = last_view_of(views, msg.spec_symbol()->Some_0);
        &&& new == (FinancialAnalysis { history_views: new.history_views, ..old })
        &&& (i < 0 ==> new.history_views@ == views)
        &&& (i >= 0 ==> {
            &&& new.history_views@.len() == views.len()
            &&& forall|j: int|
                0 <= j < views.len() && j != i ==> #[trigger] new.history_views@[j] == views[j]
            &&& StockView::handled(views[i], new.history_views@[i], msg)
        })
    }

    /// Once the token is known: a stored token counts as logged in.
    pub fn init(self) -> (r: Self)
        ensures
            self.token@.len() > 0 ==> r == (FinancialAnalysis { login_done: true, ..self }),
            self.token@.len() == 0 ==> r == self,
    {
        let mut s = self;
        if !s.token.as_str().is_empty() {
            s.login_done = true;
        }
        s
    }

    /// Asks for the company list when there is a handle to ask with: marks it
    /// requested and returns true; returns false when there is none.
    pub fn load_stock_list(&mut self) -> (r: bool)
        ensures
            r == old(self).client is Some,
            r ==> *final(self) == (FinancialAnalysis {
                stock_list_requesting: true,
                ..*old(self)
            }),
            !r ==> *final(self) == *old(self),
    {
        if self.client.is_some() {
            self.stock_list_requesting = true;
            true
        } else {
            false
        }
    }

    /// The company list is due: logged in with a handle, none held and none
    /// asked for.
    pub fn needs_stock_list(&self) -> (r: bool)
        ensures
            r == (!self.stock_list_requesting && self.client is Some && self.stock_list@.len() == 0
                && self.token@.len() > 0),
    {
        !self.stock_list_requesting && self.client.is_some() && self.stock_list.len() == 0
            && !self.token.as_str().is_empty()
    }

    /// Forgets the token.
    pub fn logout(&mut self)
        ensures
            final(self).token@.len() == 0,
            *final(self) == (FinancialAnalysis {
                token: final(self).token,
                login_done: false,
                ..*old(self)
            }),
    {
        self.token = String::new();
        self.login_done = false;
    }

    /// Opens a fresh view of `stock` at the end, unless one of that company is
    /// open.
    pub fn open_view(&mut self, stock: StockResp)
        ensures
            (exists|i: int|
                0 <= i < old(self).history_views@.len() && (#[trigger] old(self).history_views@[i]).stock.symbol@ == stock.symbol@) ==> *final(self)
                == *old(self),
            (forall|i: int|
                0 <= i < old(self).history_views@.len() ==> (#[trigger] old(self).history_views@[i]).stock.symbol@ != stock.symbol@) ==> {
                &&& *final(self) == (FinancialAnalysis {
                    history_views: final(self).history_views,
                    ..*old(self)
                })
                &&& final(self).history_views@.drop_last() == old(self).history_views@
                &&& final(self).history_views@.len() == old(self).history_views@.len() + 1
                &&& final(self).history_views@.last().stock == stock
                &&& final(self).history_views@.last().is_fresh()
            },
    {
        let mut i: usize = 0;
        while i < self.history_views.len()
            invariant
                i <= self.history_views.len(),
                forall|j: int|
                    0 <= j < i ==> (#[trigger] self.history_views@[j]).stock.symbol@
                        != stock.symbol@,
            decreases self.history_views.len() - i,
        {
            if self.history_views[i].stock.symbol == stock.symbol {
                return;
            }
            i = i + 1;
        }
        let ghost before = self.history_views@;
        self.history_views.push(StockView::new(stock));
        assert(self.history_views@.drop_last() =~= before);
    }

    /// Drops the views whose window was closed, keeping the order of the rest.
    pub fn remove_closed_views(&mut self)
        ensures
            *final(self) == (FinancialAnalysis {
                history_views: final(self).history_views,
                ..*old(self)
            }),
            final(self).history_views@ == open_views(old(self).history_views@),
    {
        let mut views: Vec<StockView> = Vec::new();
        std::mem::swap(&mut views, &mut self.history_views);
        let ghost all = views@;
        let mut kept: Vec<StockView> = Vec::new();
        for v in it: views
            invariant
                it.seq() == all,
                kept@ == open_views(all.take(it.index() as int)),
                *self == (FinancialAnalysis { history_views: self.history_views, ..*old(self) }),
        {
            let ghost i = it.index();
            assert(all.take(i + 1).drop_last() =~= all.take(i));
            if v.valid {
                kept.push(v);
            }
        }
        assert(all.take(all.len() as int) =~= all);
        self.history_views = kept;
    }

    /// Refreshes the search result when the company list is not empty and the
    /// search text was edited or differs from the one last searched for.
    pub fn refresh_selection(&mut self, edited: bool)
        ensures
            old(self).stock_list@.len() > 0 && (edited || old(self).search_text@ != old(self).stock_list_select_text@) ==> {
                &&& *final(self) == (FinancialAnalysis {
                    stock_list_select: final(self).stock_list_select,
                    stock_list_select_text: final(self).stock_list_select_text,
                    ..*old(self)
                })
                &&& views_of(final(self).stock_list_select@) == found_stocks(
                    views_of(old(self).stock_list@),
                    old(self).search_text@,
                )
                &&& final(self).stock_list_select_text@ == old(self).search_text@
            },
            !(old(self).stock_list@.len() > 0 && (edited || old(self).search_text@ != old(self).stock_list_select_text@)) ==> *final(self) == *old(self),
    {
        if self.stock_list.len() > 0 && (edited || self.search_text != self.stock_list_select_text) {
            self.stock_list_select = filter_stocks(&self.stock_list, self.search_text.as_str());
            self.stock_list_select_text = self.search_text.clone();
        }
    }

    /// Passes an event about one company to the last view of it.
    fn route_to_view(&mut self, msg: Message<C>)
        requires
            msg.spec_symbol() is Some,
        ensures
            Self::routed(*old(self), *final(self), msg),
    {
        let ghost symbol = msg.spec_symbol()->Some_0;
        let symbol = match &msg {
            Message::GotTradingHistory(s, _) => s,
            Message::GotPredicts(s, _) => s,
            Message::GotStockIssue(s, _) => s,
            _ => {
                return;
            },
        };
        let mut i: usize = self.history_views.len();
        let mut found = false;
        assert(self.history_views@.take(i as int) =~= self.history_views@);
        while i > 0 && !found
            invariant
                i <= self.history_views.len(),
                symbol@ == msg.spec_symbol()->Some_0,
                last_view_of(self.history_views@, symbol@) == last_view_of(
                    self.history_views@.take(i as int),
                    symbol@,
                ),
                found ==> i > 0 && self.history_views@[i - 1].stock.symbol@ == symbol@,
            decreases i + (if found {
                0int
            } else {
                1int
            }),
        {
            let ghost views = self.history_views@;
            assert(views.take(i as int).drop_last() =~= views.take(i - 1));
            if self.history_views[i - 1].stock.symbol == *symbol {
                found = true;
            } else {
                i = i - 1;
            }
        }
        if !found {
            assert(self.history_views@.take(0) =~= Seq::<StockView>::empty());
            return;
        }
        assert(self.history_views@.take(i as int).last() == self.history_views@[i - 1]);
        let ghost views = self.history_views@;
        assert(last_view_of(views, symbol@) == i - 1);
        self.history_views[i - 1].message_handler(msg);
        assert(forall|j: int|
            0 <= j < views.len() && j != i - 1 ==> #[trigger] self.history_views@[j] == views[j]);
    }

    /// Applies an event. Returns true when the company list is to be fetched
    /// now (after a login, with a handle to ask with).
    pub fn message_handler(&mut self, msg: Message<C>, draws: &Vec<u32>) -> (load: bool)
        ensures
            load == (msg is LoginDone && old(self).client is Some),
            match msg {
                Message::ApiClientConnect(c) => *final(self) == (FinancialAnalysis {
                    client: Some(c),
                    ..*old(self)
                }),
                Message::LoginDone(token) => *final(self) == (FinancialAnalysis {
                    login_done: true,
                    token: token,
                    stock_list_requesting: old(self).stock_list_requesting || old(self).client is Some,
                    ..*old(self)
                }),
                Message::LoginError(reason) => *final(self) == (FinancialAnalysis {
                    login_done: false,
                    login_error: reason,
                    ..*old(self)
                }),
                Message::GotStockList(list) => {
                    &&& *final(self) == (FinancialAnalysis {
                        stock_list: list.data,
                        stock_list_requesting: false,
                        stock_list_popular: final(self).stock_list_popular,
                        ..*old(self)
                    })
                    &&& list.data@.len() > 0 ==> views_of(final(self).stock_list_popular@)
                        == popular_of(views_of(list.data@), draws@)
                    &&& list.data@.len() == 0 ==> final(self).stock_list_popular
                        == old(self).stock_list_popular
                },
                _ => Self::routed(*old(self), *final(self), msg),
            },
    {
        match msg {
            Message::ApiClientConnect(c) => {
                self.client = Some(c);
                false
            },
            Message::LoginDone(token) => {
                self.login_done = true;
                self.token = token;
                self.load_stock_list()
            },
            Message::LoginError(reason) => {
                self.login_done = false;
                self.login_error = reason;
                false
            },
            Message::GotStockList(list) => {
                self.stock_list = list.data;
                self.stock_list_requesting = false;
                if self.stock_list.len() > 0 {
                    self.stock_list_popular = pick_popular(&self.stock_list, draws);
                }
                false
            },
            _ => {
                self.route_to_view(msg);
                false
            },
        }
    }
}

} // verus!
