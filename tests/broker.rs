use std::cell::RefCell;
use std::rc::Rc;

use purpledrop::broker::{EventBroker, EventHandler, HandlerError};

struct Recorder {
    id: usize,
    fail: bool,
    log: Rc<RefCell<Vec<(usize, Vec<i32>)>>>,
}

impl EventHandler<Vec<i32>> for Recorder {
    fn handle(&self, mut event: Vec<i32>) -> Result<(), HandlerError> {
        self.log.borrow_mut().push((self.id, event.clone()));
        // Each handler owns its copy: changing it affects no other handler.
        event.push(self.id as i32);
        if self.fail {
            Err(HandlerError)
        } else {
            Ok(())
        }
    }
}

#[test]
fn broker_delivers_to_every_handler_in_order_despite_failure() {
    let log = Rc::new(RefCell::new(Vec::new()));
    let mut broker: EventBroker<Vec<i32>, Recorder> = EventBroker::new();
    for id in 0..4 {
        broker.add_handler(Recorder { id, fail: id == 1, log: log.clone() });
    }
    assert_eq!(broker.n_handlers(), 4);
    let outcomes = broker.send(vec![1, 2, 3]);
    assert_eq!(outcomes.len(), 4);
    assert_eq!(outcomes[1], Err(HandlerError));
    assert!(outcomes[0].is_ok() && outcomes[2].is_ok() && outcomes[3].is_ok());
    let log = log.borrow();
    assert_eq!(log.len(), 4);
    for (i, (id, event)) in log.iter().enumerate() {
        assert_eq!(*id, i);
        assert_eq!(*event, vec![1, 2, 3]);
    }
}

#[test]
fn broker_without_handlers_delivers_nothing() {
    let broker: EventBroker<Vec<i32>, Recorder> = EventBroker::new();
    assert!(broker.send(vec![5]).is_empty());
}
