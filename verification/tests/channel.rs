use audiogram::channel::{Channel, ChannelSlot};

#[test]
fn slots_alternate() {
    assert_eq!(ChannelSlot::SlotA.next(), ChannelSlot::SlotB);
    assert_eq!(ChannelSlot::SlotB.next(), ChannelSlot::SlotA);
    assert_eq!(ChannelSlot::SlotA.next().next(), ChannelSlot::SlotA);
}

#[test]
fn slot_channel_assignment() {
    assert!(ChannelSlot::SlotA.is_active_for(Channel::Left));
    assert!(!ChannelSlot::SlotA.is_active_for(Channel::Right));
    assert!(ChannelSlot::SlotB.is_active_for(Channel::Right));
    assert!(!ChannelSlot::SlotB.is_active_for(Channel::Left));
}
