use lifeline::dyn_bus::{DynBus, DynBusStorage};
use lifeline::error::{TakeChannelError, TakeResourceError};
use lifeline::{Bus, Channel, Link, Message, Policy, Resource, Storage};
use std::sync::mpsc::{sync_channel, Receiver, SyncSender};

#[derive(Clone, Debug)]
struct TextTx(SyncSender<String>);

#[derive(Debug)]
struct TextRx(Receiver<String>);

impl Storage for TextTx {
    fn policy(&self) -> Policy {
        Policy::Clone
    }

    fn take_or_clone(res: &mut Option<Self>) -> Option<Self> {
        Self::clone_slot(res)
    }
}

impl Storage for TextRx {
    fn policy(&self) -> Policy {
        Policy::Take
    }

    fn take_or_clone(res: &mut Option<Self>) -> Option<Self> {
        Self::take_slot(res)
    }
}

struct TextQueue;

impl Channel for TextQueue {
    type Tx = TextTx;
    type Rx = TextRx;

    fn resubscribes() -> bool {
        false
    }

    fn channel(capacity: usize) -> (TextTx, TextRx) {
        let (tx, rx) = sync_channel(capacity);
        (TextTx(tx), TextRx(rx))
    }

    fn default_capacity() -> usize {
        16
    }

    fn clone_rx(rx: &mut Option<TextRx>, _tx: Option<&TextTx>) -> Option<TextRx> {
        TextRx::take_or_clone(rx)
    }
}

#[derive(Clone, Debug, PartialEq)]
struct Config {
    verbose: bool,
}

impl Storage for Config {
    fn policy(&self) -> Policy {
        Policy::Clone
    }

    fn take_or_clone(res: &mut Option<Self>) -> Option<Self> {
        Self::clone_slot(res)
    }
}

struct MainBus {
    storage: DynBusStorage<TextTx, TextRx, Config>,
}

impl MainBus {
    fn new() -> Self {
        MainBus { storage: DynBusStorage::new("app::MainBus") }
    }
}

impl DynBus for MainBus {
    type Tx = TextTx;
    type Rx = TextRx;
    type Resource = Config;

    fn spec_storage(&self) -> &DynBusStorage<TextTx, TextRx, Config> {
        &self.storage
    }

    fn storage(&self) -> &DynBusStorage<TextTx, TextRx, Config> {
        &self.storage
    }

    fn storage_mut(&mut self) -> &mut DynBusStorage<TextTx, TextRx, Config> {
        &mut self.storage
    }
}

struct Greeting;

impl Message<MainBus> for Greeting {
    type Channel = TextQueue;

    const ID: u64 = 1;
    const NAME: &'static str = "app::messages::Greeting";
}

struct Farewell;

impl Message<MainBus> for Farewell {
    type Channel = TextQueue;

    const ID: u64 = 2;
    const NAME: &'static str = "app::messages::Farewell";
}

struct MainConfig;

impl Resource<MainBus> for MainConfig {
    const ID: u64 = 1;
    const NAME: &'static str = "app::MainConfig";
}

#[test]
fn bus_hands_out_wrapped_endpoints_by_message() {
    let mut bus = MainBus::new();
    assert!(bus.capacity::<Greeting>(2).is_ok());

    let tx = bus.tx::<Greeting>().unwrap();
    let other = bus.tx::<Greeting>().unwrap();
    let rx = bus.rx::<Greeting>().unwrap();
    assert!(!tx.is_logged());
    assert!(!rx.is_logged());

    match bus.rx::<Greeting>() {
        Err(TakeChannelError::AlreadyTaken(error)) => {
            assert_eq!(error.to_string(), "link already taken: MainBus < Greeting::Rx >");
            assert_eq!(error.link, Link::Rx);
        }
        other => panic!("expected AlreadyTaken, got {:?}", other.map(|_| ())),
    }
    assert!(bus.capacity::<Greeting>(4).is_err());

    let rx = rx.into_inner().0;
    other.into_inner().0.send("hello".to_string()).unwrap();
    assert_eq!(rx.try_recv(), Ok("hello".to_string()));

    // another message has a channel of its own
    let farewell = bus.rx::<Farewell>().unwrap().into_inner().0;
    tx.into_inner().0.send("only for greeting".to_string()).unwrap();
    assert!(farewell.try_recv().is_err());
    assert_eq!(rx.try_recv(), Ok("only for greeting".to_string()));
}

#[test]
fn bus_stores_endpoints_that_were_made_by_hand() {
    let mut bus = MainBus::new();
    let (tx, rx) = sync_channel(1);
    assert!(bus.store_channel::<Greeting>(TextRx(rx), TextTx(tx)).is_ok());
    assert!(!bus.storage().try_lock(lifeline::Identity::new(1, "Greeting")));

    let (tx, rx) = sync_channel(1);
    let error = bus.store_channel::<Greeting>(TextRx(rx), TextTx(tx)).unwrap_err();
    assert_eq!(error.to_string(), "link already generated: MainBus < Greeting >");

    let (tx, _) = sync_channel(1);
    assert!(bus.store_tx::<Greeting>(TextTx(tx)).is_err());
    let (_, rx) = sync_channel(1);
    assert!(bus.store_rx::<Greeting>(TextRx(rx)).is_err());

    let (tx, _) = sync_channel(1);
    assert!(bus.store_tx::<Farewell>(TextTx(tx)).is_ok());
    assert!(matches!(
        bus.rx::<Farewell>().map(|_| ()),
        Err(TakeChannelError::PartialTake(_))
    ));
    assert!(bus.tx::<Farewell>().is_ok());
}

#[test]
fn bus_stores_and_hands_out_resources() {
    let mut bus = MainBus::new();
    assert!(matches!(
        bus.resource::<MainConfig>(),
        Err(TakeResourceError::Uninitialized(_))
    ));
    bus.store_resource::<MainConfig>(Config { verbose: true });
    assert_eq!(bus.resource::<MainConfig>().unwrap(), Config { verbose: true });
    assert_eq!(bus.resource::<MainConfig>().unwrap(), Config { verbose: true });
}
