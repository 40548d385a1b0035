use listaisto::db::{
    count_found, flag_byte, increment_overflows, next_quantidade, prefix_pattern, split_articles,
    toggle_value, Artigo,
};

fn artigo(id: i32, comprar: i8) -> Artigo {
    Artigo {
        id,
        lista_id: Some(1),
        nome: format!("item{}", id),
        quantidade: "1x".to_string(),
        comprar,
        criado_em: 0,
        movido_em: 0,
    }
}

#[test]
fn split_keeps_order_per_side() {
    let rows = vec![artigo(1, 1), artigo(2, 0), artigo(3, 1), artigo(4, 0)];
    let (despensa, comprar) = split_articles(rows);
    assert_eq!(despensa.iter().map(|a| a.id).collect::<Vec<_>>(), vec![2, 4]);
    assert_eq!(comprar.iter().map(|a| a.id).collect::<Vec<_>>(), vec![1, 3]);
}

#[test]
fn split_keeps_every_row() {
    let rows = vec![artigo(1, 1), artigo(2, 0), artigo(3, -1), artigo(4, 0), artigo(5, 7)];
    let (despensa, comprar) = split_articles(rows);
    assert_eq!(despensa.len() + comprar.len(), 5);
    let mut ids: Vec<i32> = despensa.iter().chain(comprar.iter()).map(|a| a.id).collect();
    ids.sort();
    assert_eq!(ids, vec![1, 2, 3, 4, 5]);
}

#[test]
fn toggle_destinations() {
    assert_eq!(toggle_value(0, None), 1);
    assert_eq!(toggle_value(1, None), 0);
    assert_eq!(toggle_value(0, Some("comprar")), 1);
    assert_eq!(toggle_value(1, Some("comprar")), 1);
    assert_eq!(toggle_value(1, Some("despensa")), 0);
    assert_eq!(toggle_value(0, Some("despensa")), 0);
    assert_eq!(toggle_value(0, Some("outro")), 1);
    // Flipping twice restores the side.
    assert_eq!(toggle_value(toggle_value(1, None), None), 1);
}

#[test]
fn quantity_steps() {
    assert_eq!(next_quantidade("2x", "mais"), "3");
    assert_eq!(next_quantidade("2x", "menos"), "1");
    assert_eq!(next_quantidade("1", "menos"), "1");
    assert_eq!(next_quantidade("0", "menos"), "0");
    assert_eq!(next_quantidade("abc", "mais"), "2");
    assert_eq!(next_quantidade("500g", "outro"), "500");
    // Up then down gives the count back.
    let up = next_quantidade("7 kg", "mais");
    assert_eq!(next_quantidade(&up, "menos"), "7");
    assert!(increment_overflows("9223372036854775807"));
    assert!(!increment_overflows("12"));
}

#[test]
fn small_helpers() {
    assert!(count_found(1));
    assert!(!count_found(0));
    assert_eq!(flag_byte(true), 1);
    assert_eq!(flag_byte(false), 0);
    assert_eq!(prefix_pattern("ar"), "ar%");
}
