use wolf_engine::events::{Event, EventLoop as EventSource, EventQueue, EventSender};
use wolf_engine::EventLoop;

#[test]
fn should_send_and_receive_events() {
    let mut event_queue = EventQueue::new();

    event_queue.send_event(0).unwrap();

    assert_eq!(event_queue.next_event().expect("No event in the queue"), 0);
}

#[test]
fn should_flush_empty_list_if_there_are_no_events() {
    let mut event_queue = EventQueue::<i32>::new();

    assert!(event_queue.next_event().is_none());
}

#[test]
fn event_queue_should_implement_default_trait() {
    let _event_queue = EventQueue::<i32>::default();
}

#[test]
fn fifo_order_is_preserved_for_a_single_producer() {
    let mut event_queue = EventQueue::new();
    for i in 0..100 {
        event_queue.send_event(i).unwrap();
    }
    for i in 0..100 {
        assert_eq!(event_queue.next_event().expect("No event in the queue"), i);
    }
    assert!(event_queue.next_event().is_none());
}

#[test]
fn event_loop_should_run_and_quit() {
    let mut event_loop = EventLoop::new();
    let mut updates: u32 = 0;

    while let Some(event) = event_loop.next_event() {
        match event {
            Event::Quit => (),
            Event::EventsCleared => {
                if updates == 3 {
                    event_loop.send_event(Event::Quit).unwrap();
                } else {
                    updates += 1;
                }
            }
            _ => (),
        }
    }

    assert!(event_loop.has_quit());
    assert_eq!(updates, 3);
}

#[test]
fn event_loop_should_emit_events_cleared_when_event_queue_is_empty() {
    let mut event_loop = EventLoop::new();

    event_loop.send_event(Event::Update).ok();
    assert_eq!(
        event_loop.next_event().unwrap(),
        Event::Update,
        "The event-loop did not emit the expected Update event."
    );

    assert_eq!(
        event_loop.next_event().unwrap(),
        Event::EventsCleared,
        "The event-loop did not emit the expected EventsCleared event."
    );
}

#[test]
fn quit_is_terminal_for_the_event_loop() {
    let mut event_loop = EventLoop::new();

    assert_eq!(event_loop.next_event(), Some(Event::EventsCleared));
    event_loop.send_event(Event::Quit).unwrap();
    assert_eq!(event_loop.next_event(), Some(Event::Quit));

    event_loop.send_event(Event::Update).unwrap();
    for _ in 0..10 {
        assert_eq!(event_loop.next_event(), None);
    }
}
