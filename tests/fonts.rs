use typst_host::fonts::FontSearcher;
use typst_host::world::SystemWorld;

#[test]
fn bundled_fonts_load() {
    let mut fonts = FontSearcher::new();
    assert_eq!(fonts.len(), 0);
    fonts.add_embedded();
    assert!(fonts.len() > 0);
    assert!(fonts.font(0).is_some());
    assert!(fonts.font(fonts.len()).is_none());
    assert_eq!(fonts.book().info(fonts.len() - 1).is_some(), true);
    assert!(fonts.book().info(fonts.len()).is_none());
}

#[test]
fn added_fonts_go_to_the_end() {
    let mut world = SystemWorld::new("/".to_string());
    let mut n = 0;
    while world.font(n).is_some() {
        n += 1;
    }
    let before: Vec<_> = (0..n).map(|i| world.font(i).unwrap()).collect();
    let data = typst_assets::fonts().next().unwrap().to_vec();
    world.add_font(data);
    let mut m = n;
    while world.font(m).is_some() {
        m += 1;
    }
    assert!(m > n);
    for (i, f) in before.iter().enumerate() {
        assert!(world.font(i).unwrap() == *f);
    }
    assert!(world.book().info(m - 1).is_some());
}

#[test]
fn garbage_adds_no_face() {
    let mut fonts = FontSearcher::new();
    fonts.add_font(vec![1, 2, 3, 4]);
    assert_eq!(fonts.len(), 0);
    assert!(fonts.font(0).is_none());
}

#[test]
fn two_contexts_share_bundled_indices() {
    let mut a = FontSearcher::new();
    a.add_embedded();
    let mut b = FontSearcher::new();
    b.add_embedded();
    assert_eq!(a.len(), b.len());
    for i in 0..a.len() {
        assert!(a.font(i).unwrap() == b.font(i).unwrap());
        assert_eq!(a.book().info(i).unwrap().family, b.book().info(i).unwrap().family);
    }
}
