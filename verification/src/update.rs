//! The player as a whole: its state and the orders that its decisions leave behind.
//!
//! Every decision is a step from one state to the next. What is to be done outside is left behind as
//! an order; its outcome comes back as another step.
use vstd::prelude::*;
use crate::config::{Config, ConfigModel};
use crate::order::{Order, OrderModel};
use crate::state::{self, AppState, StateModel, StatusModel};
use crate::tab::StatusLevel;

verus! {

/// The player: its state, and what it wants done.
#[derive(Debug)]
pub struct App {
    pub state: AppState,
    pub orders: Vec<Order>,
}

pub struct AppModel {
    pub state: StateModel,
    pub orders: Seq<OrderModel>,
}

impl DeepView for App {
    type V = AppModel;

    open spec fn deep_view(&self) -> AppModel {
        AppModel { state: self.state.deep_view(), orders: self.orders.deep_view() }
    }
}

impl AppModel {
    /// The player at the start.
    pub open spec fn started(config: ConfigModel) -> AppModel {
        AppModel { state: state::initial(config), orders: Seq::empty() }
    }

    /// The state is sound.
    #[verifier::opaque]
    pub open spec fn wf(self) -> bool {
        self.state.wf()
    }

    /// The same with a message in the status line.
    #[verifier::opaque]
    pub open spec fn told(self, level: StatusLevel, message: Seq<char>) -> AppModel {
        AppModel { state: self.state.told(level, message), ..self }
    }

    /// The same with an order more.
    #[verifier::opaque]
    pub open spec fn ordering(self, order: OrderModel) -> AppModel {
        AppModel { orders: self.orders.push(order), ..self }
    }

    /// The same with something being done in the background, or nothing.
    #[verifier::opaque]
    pub open spec fn busy_with(self, what: Option<Seq<char>>) -> AppModel {
        AppModel {
            state: StateModel {
                status: StatusModel { busy: what, ..self.state.status },
                ..self.state
            },
            ..self
        }
    }
}

impl App {
    /// The player at the start.
    pub fn new(config: Config) -> (r: App)
        ensures
            r.deep_view() == AppModel::started(config.deep_view()),
            r.deep_view().wf(),
    {
        let r = App { state: AppState::new(config), orders: Vec::new() };
        proof {
            reveal(AppModel::wf);
            assert(r.orders.deep_view() =~= Seq::<OrderModel>::empty());
        }
        r
    }

    /// Hands out what is to be done.
    pub fn take_orders(&mut self) -> (r: Vec<Order>)
        ensures
            r.deep_view() == old(self).deep_view().orders,
            final(self).deep_view() == (AppModel {
                orders: Seq::empty(),
                ..old(self).deep_view()
            }),
    {
        let mut orders: Vec<Order> = Vec::new();
        std::mem::swap(&mut orders, &mut self.orders);
        proof {
            assert(self.orders.deep_view() =~= Seq::<OrderModel>::empty());
        }
        orders
    }

    /// Leaves an order behind.
    pub(crate) fn order(&mut self, order: Order)
        ensures
            final(self).deep_view() == old(self).deep_view().ordering(order.deep_view()),
            final(self).deep_view().wf() == old(self).deep_view().wf(),
            final(self).state == old(self).state,
    {
        proof {
            reveal(AppModel::ordering);
            reveal(AppModel::wf);
        }
        let ghost before = self.orders.deep_view();
        let ghost added = order.deep_view();
        self.orders.push(order);
        proof {
            assert(self.orders.deep_view() =~= before.push(added));
        }
    }

    /// Shows a message.
    pub(crate) fn tell(&mut self, level: StatusLevel, message: String)
        ensures
            final(self).deep_view() == old(self).deep_view().told(level, message@),
            final(self).deep_view().wf() == old(self).deep_view().wf(),
    {
        proof {
            reveal(AppModel::told);
            reveal(AppModel::wf);
        }
        self.state.notify(level, message);
    }

    /// Shows what is being done in the background.
    pub(crate) fn set_busy(&mut self, what: Option<String>)
        ensures
            final(self).deep_view() == old(self).deep_view().busy_with(what.deep_view()),
            final(self).deep_view().wf() == old(self).deep_view().wf(),
            final(self).state.pages == old(self).state.pages,
            final(self).state.player == old(self).state.player,
    {
        proof {
            reveal(AppModel::busy_with);
            reveal(AppModel::wf);
            reveal(state::status_model);
        }
        self.state.status.busy = what;
    }
}

} // verus!
